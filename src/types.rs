//! Identities of users, hosts, branches and remotes, and the nomad managed refs built from them.
use vstd::prelude::*;

verus! {

/// A remote git repository identified by name, like `origin`.
#[derive(Clone, Debug, Eq, Hash)]
pub struct Remote(pub String);

impl View for Remote {
    type V = Seq<char>;

    open spec fn view(&self) -> Seq<char> {
        self.0@
    }
}

impl PartialEq for Remote {
    fn eq(&self, other: &Remote) -> (r: bool) {
        self.0 == other.0
    }
}

impl vstd::std_specs::cmp::PartialEqSpecImpl for Remote {
    open spec fn obeys_eq_spec() -> bool {
        true
    }

    open spec fn eq_spec(&self, other: &Remote) -> bool {
        self@ == other@
    }
}

impl From<String> for Remote {
    fn from(s: String) -> (r: Remote) {
        Remote(s)
    }
}

impl vstd::std_specs::convert::FromSpecImpl<String> for Remote {
    open spec fn obeys_from_spec() -> bool {
        true
    }

    open spec fn from_spec(s: String) -> Remote {
        Remote(s)
    }
}

impl<'a> From<&'a str> for Remote {
    fn from(s: &'a str) -> (r: Remote) {
        Remote(s.to_string())
    }
}

// A `String` cannot be built from a `&str` in specifications, so this conversion carries no
// specification; verified code builds these values from `String`s.
impl<'a> vstd::std_specs::convert::FromSpecImpl<&'a str> for Remote {
    open spec fn obeys_from_spec() -> bool {
        false
    }

    open spec fn from_spec(s: &'a str) -> Remote {
        vstd::pervasive::arbitrary()
    }
}

/// The branch name part of a ref. `refs/heads/master` would be `Branch::from("master")`.
///
/// A branch name may itself contain `/`, as in `feature/x`.
#[derive(Clone, Debug, Eq, Hash)]
pub struct Branch(pub String);

impl View for Branch {
    type V = Seq<char>;

    open spec fn view(&self) -> Seq<char> {
        self.0@
    }
}

impl PartialEq for Branch {
    fn eq(&self, other: &Branch) -> (r: bool) {
        self.0 == other.0
    }
}

impl vstd::std_specs::cmp::PartialEqSpecImpl for Branch {
    open spec fn obeys_eq_spec() -> bool {
        true
    }

    open spec fn eq_spec(&self, other: &Branch) -> bool {
        self@ == other@
    }
}

impl From<String> for Branch {
    fn from(s: String) -> (r: Branch) {
        Branch(s)
    }
}

impl vstd::std_specs::convert::FromSpecImpl<String> for Branch {
    open spec fn obeys_from_spec() -> bool {
        true
    }

    open spec fn from_spec(s: String) -> Branch {
        Branch(s)
    }
}

impl<'a> From<&'a str> for Branch {
    fn from(s: &'a str) -> (r: Branch) {
        Branch(s.to_string())
    }
}

// A `String` cannot be built from a `&str` in specifications, so this conversion carries no
// specification; verified code builds these values from `String`s.
impl<'a> vstd::std_specs::convert::FromSpecImpl<&'a str> for Branch {
    open spec fn obeys_from_spec() -> bool {
        false
    }

    open spec fn from_spec(s: &'a str) -> Branch {
        vstd::pervasive::arbitrary()
    }
}

/// Represents "who" a given branch belongs to. This value is shared by every git clone that
/// belongs to the same user, and keeps the refs of different users apart on a shared remote.
#[derive(Clone, Debug, Eq, Hash)]
pub struct User(pub String);

impl View for User {
    type V = Seq<char>;

    open spec fn view(&self) -> Seq<char> {
        self.0@
    }
}

impl PartialEq for User {
    fn eq(&self, other: &User) -> (r: bool) {
        self.0 == other.0
    }
}

impl vstd::std_specs::cmp::PartialEqSpecImpl for User {
    open spec fn obeys_eq_spec() -> bool {
        true
    }

    open spec fn eq_spec(&self, other: &User) -> bool {
        self@ == other@
    }
}

impl From<String> for User {
    fn from(s: String) -> (r: User) {
        User(s)
    }
}

impl vstd::std_specs::convert::FromSpecImpl<String> for User {
    open spec fn obeys_from_spec() -> bool {
        true
    }

    open spec fn from_spec(s: String) -> User {
        User(s)
    }
}

impl<'a> From<&'a str> for User {
    fn from(s: &'a str) -> (r: User) {
        User(s.to_string())
    }
}

// A `String` cannot be built from a `&str` in specifications, so this conversion carries no
// specification; verified code builds these values from `String`s.
impl<'a> vstd::std_specs::convert::FromSpecImpl<&'a str> for User {
    open spec fn obeys_from_spec() -> bool {
        false
    }

    open spec fn from_spec(s: &'a str) -> User {
        vstd::pervasive::arbitrary()
    }
}

impl User {
    /// A copy of this value.
    pub fn duplicate(&self) -> (r: User)
        ensures
            r@ == self@,
    {
        User(self.0.clone())
    }
}

/// Represents "where" a given branch comes from. This value is unique for every git clone
/// belonging to a specific user, so that the hosts of one user can co-exist on the remote.
#[derive(Clone, Debug, Eq, Hash)]
pub struct Host(pub String);

impl View for Host {
    type V = Seq<char>;

    open spec fn view(&self) -> Seq<char> {
        self.0@
    }
}

impl PartialEq for Host {
    fn eq(&self, other: &Host) -> (r: bool) {
        self.0 == other.0
    }
}

impl vstd::std_specs::cmp::PartialEqSpecImpl for Host {
    open spec fn obeys_eq_spec() -> bool {
        true
    }

    open spec fn eq_spec(&self, other: &Host) -> bool {
        self@ == other@
    }
}

impl From<String> for Host {
    fn from(s: String) -> (r: Host) {
        Host(s)
    }
}

impl vstd::std_specs::convert::FromSpecImpl<String> for Host {
    open spec fn obeys_from_spec() -> bool {
        true
    }

    open spec fn from_spec(s: String) -> Host {
        Host(s)
    }
}

impl<'a> From<&'a str> for Host {
    fn from(s: &'a str) -> (r: Host) {
        Host(s.to_string())
    }
}

// A `String` cannot be built from a `&str` in specifications, so this conversion carries no
// specification; verified code builds these values from `String`s.
impl<'a> vstd::std_specs::convert::FromSpecImpl<&'a str> for Host {
    open spec fn obeys_from_spec() -> bool {
        false
    }

    open spec fn from_spec(s: &'a str) -> Host {
        vstd::pervasive::arbitrary()
    }
}

impl Host {
    /// A copy of this value.
    pub fn duplicate(&self) -> (r: Host)
        ensures
            r@ == self@,
    {
        Host(self.0.clone())
    }
}

impl Branch {
    /// Builds a [`Branch`] from anything string-like.
    pub fn str(s: &str) -> (r: Branch)
        ensures
            r@ == s@,
    {
        Branch(String::from_str(s))
    }
}

/// A ref representing a branch managed by nomad.
#[derive(Clone, Debug, PartialEq, Eq, Hash)]
pub struct NomadRef<Ref> {
    /// The user this branch belongs to.
    pub user: User,
    /// The host this branch comes from.
    pub host: Host,
    /// The branch name.
    pub branch: Branch,
    /// Any additional internal data representing the underlying git ref.
    pub ref_: Ref,
}

impl<Ref> NomadRef<Ref> {
    /// The (user, host, branch) identity of this ref, without its payload.
    pub open spec fn key(&self) -> (Seq<char>, Seq<char>, Seq<char>) {
        (self.user@, self.host@, self.branch@)
    }
}

/// A specialized container for the nomad managed refs that a remote knows about.
///
/// Only the (user, host, branch) identity of each ref is kept: which git object the remote ref
/// points to does not matter when deciding whether the remote still tracks it.
pub struct RemoteNomadRefSet {
    set: Vec<(User, Host, Branch)>,
}

impl View for RemoteNomadRefSet {
    type V = Set<(Seq<char>, Seq<char>, Seq<char>)>;

    closed spec fn view(&self) -> Set<(Seq<char>, Seq<char>, Seq<char>)> {
        Set::new(
            |k: (Seq<char>, Seq<char>, Seq<char>)|
                exists|i: int|
                    0 <= i < self.set.len() && #[trigger] triple_key(self.set@[i]) == k,
        )
    }
}

/// The identity held by a (user, host, branch) triple.
pub open spec fn triple_key(t: (User, Host, Branch)) -> (Seq<char>, Seq<char>, Seq<char>) {
    (t.0@, t.1@, t.2@)
}

impl RemoteNomadRefSet {
    /// The set of the given (user, host, branch) triples.
    pub fn from_triples(triples: Vec<(User, Host, Branch)>) -> (r: RemoteNomadRefSet)
        ensures
            forall|k: (Seq<char>, Seq<char>, Seq<char>)|
                r@.contains(k) <==> exists|i: int|
                    0 <= i < triples.len() && #[trigger] triple_key(triples@[i]) == k,
    {
        RemoteNomadRefSet { set: triples }
    }

    /// The set of the identities of the given nomad refs.
    pub fn from_nomad_refs<Ref>(refs: Vec<NomadRef<Ref>>) -> (r: RemoteNomadRefSet)
        ensures
            forall|k: (Seq<char>, Seq<char>, Seq<char>)|
                r@.contains(k) <==> exists|i: int|
                    0 <= i < refs.len() && #[trigger] refs@[i].key() == k,
    {
        let mut set: Vec<(User, Host, Branch)> = Vec::new();
        for nomad_ref in it: refs.into_iter()
            invariant
                it.seq() == refs@,
                set.len() == it.index(),
                forall|j: int| 0 <= j < set.len() ==> triple_key(#[trigger] set@[j]) == refs@[j].key(),
        {
            set.push((nomad_ref.user, nomad_ref.host, nomad_ref.branch));
        }
        let r = RemoteNomadRefSet { set };
        assert forall|k: (Seq<char>, Seq<char>, Seq<char>)|
            r@.contains(k) <==> exists|i: int| 0 <= i < refs.len() && #[trigger] refs@[i].key() == k by {
            if r@.contains(k) {
                let i = choose|i: int| 0 <= i < r.set.len() && #[trigger] triple_key(r.set@[i]) == k;
                assert(refs@[i].key() == k);
            }
            if exists|i: int| 0 <= i < refs.len() && #[trigger] refs@[i].key() == k {
                let i = choose|i: int| 0 <= i < refs.len() && #[trigger] refs@[i].key() == k;
                assert(triple_key(r.set@[i]) == k);
            }
        }
        r
    }

    /// Check whether the remote knows about a given [`NomadRef`].
    ///
    /// The `Ref` part of `NomadRef<Ref>` is ignored: what matters is that the remote still
    /// tracks a nomad ref with the given user, host and branch.
    pub fn contains<Ref>(&self, nomad_ref: &NomadRef<Ref>) -> (r: bool)
        ensures
            r == self@.contains(nomad_ref.key()),
    {
        let mut i: usize = 0;
        while i < self.set.len()
            invariant
                i <= self.set.len(),
                forall|j: int| 0 <= j < i ==> triple_key(#[trigger] self.set@[j]) != nomad_ref.key(),
            decreases self.set.len() - i,
        {
            let t = &self.set[i];
            if t.0.0 == nomad_ref.user.0 && t.1.0 == nomad_ref.host.0 && t.2.0 == nomad_ref.branch.0 {
                assert(triple_key(self.set@[i as int]) == nomad_ref.key());
                return true;
            }
            i = i + 1;
        }
        false
    }
}

} // verus!
