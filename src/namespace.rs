//! The naming scheme that keeps nomad's refs apart from those of every other git tool.
//!
//! In a local clone a nomad ref is named `refs/nomad/<host>/<branch>`; on the shared remote,
//! where several users may meet, it is `refs/nomad/<user>/<host>/<branch>`. A branch may itself
//! contain `/`: it is everything after the fixed segments.
use crate::git_ref::GitRef;
use crate::text::{chars_of, find_char, has_char, has_prefix, string_of_range};
use crate::types::{Branch, Host, NomadRef, User};
use vstd::prelude::*;

verus! {

/// The name that nomad claims as its own: the section in `git config` and the `refs/nomad`
/// hierarchy in every git repository.
pub const PREFIX: &'static str = "nomad";

/// `refs/nomad/`, under which all nomad refs live.
pub open spec fn ref_root() -> Seq<char> {
    "refs/"@ + PREFIX@ + "/"@
}

/// The segment holds no `/`, so it cannot be mistaken for several segments.
pub open spec fn is_segment(s: Seq<char>) -> bool {
    !has_char(s, '/')
}

/// The name of the local ref that tracks `branch` of `host`.
pub open spec fn local_ref_name_of(host: Seq<char>, branch: Seq<char>) -> Seq<char> {
    ref_root() + host + "/"@ + branch
}

/// The name of the remote ref that holds `branch` of `host` of `user`.
pub open spec fn remote_ref_name_of(user: Seq<char>, host: Seq<char>, branch: Seq<char>) -> Seq<
    char,
> {
    ref_root() + user + "/"@ + host + "/"@ + branch
}

/// `name` is the local ref name of some (host, branch).
pub open spec fn is_local_ref_name(name: Seq<char>) -> bool {
    exists|p: (Seq<char>, Seq<char>)| is_segment(p.0) && name == #[trigger] local_ref_name_of(p.0, p.1)
}

/// The (host, branch) whose local ref name is `name`, if there is one (there is at most one).
pub open spec fn parse_local_ref_name(name: Seq<char>) -> Option<(Seq<char>, Seq<char>)> {
    if is_local_ref_name(name) {
        Some(
            choose|p: (Seq<char>, Seq<char>)|
                is_segment(p.0) && name == #[trigger] local_ref_name_of(p.0, p.1),
        )
    } else {
        None
    }
}

/// `name` is the remote ref name of some (user, host, branch).
pub open spec fn is_remote_ref_name(name: Seq<char>) -> bool {
    exists|p: (Seq<char>, Seq<char>, Seq<char>)|
        is_segment(p.0) && is_segment(p.1) && name == #[trigger] remote_ref_name_of(p.0, p.1, p.2)
}

/// The (user, host, branch) whose remote ref name is `name`, if there is one (there is at
/// most one).
pub open spec fn parse_remote_ref_name(name: Seq<char>) -> Option<
    (Seq<char>, Seq<char>, Seq<char>),
> {
    if is_remote_ref_name(name) {
        Some(
            choose|p: (Seq<char>, Seq<char>, Seq<char>)|
                is_segment(p.0) && is_segment(p.1) && name == #[trigger] remote_ref_name_of(
                    p.0,
                    p.1,
                    p.2,
                ),
        )
    } else {
        None
    }
}

/// A segment followed by `/` can be told apart from what follows.
proof fn lemma_segment_split(a1: Seq<char>, r1: Seq<char>, a2: Seq<char>, r2: Seq<char>)
    requires
        is_segment(a1),
        is_segment(a2),
        a1 + "/"@ + r1 == a2 + "/"@ + r2,
    ensures
        a1 == a2,
        r1 == r2,
{
    reveal_strlit("/");
    let s = a1 + "/"@ + r1;
    if a1.len() < a2.len() {
        assert(s[a1.len() as int] == '/');
        assert(s[a1.len() as int] == a2[a1.len() as int]);
    } else if a2.len() < a1.len() {
        assert(s[a2.len() as int] == '/');
        assert(s[a2.len() as int] == a1[a2.len() as int]);
    }
    assert(a1 =~= s.take(a1.len() as int));
    assert(a2 =~= (a2 + "/"@ + r2).take(a2.len() as int));
    assert(r1 =~= s.skip(a1.len() as int + 1));
    assert(r2 =~= (a2 + "/"@ + r2).skip(a2.len() as int + 1));
}

/// What follows the ref root is determined by the whole name.
proof fn lemma_strip_root(x: Seq<char>, y: Seq<char>)
    requires
        ref_root() + x == ref_root() + y,
    ensures
        x == y,
{
    assert(x =~= (ref_root() + x).skip(ref_root().len() as int));
    assert(y =~= (ref_root() + y).skip(ref_root().len() as int));
}

/// Two (host, branch) pairs with the same local ref name are the same pair.
proof fn lemma_local_ref_name_unique(h1: Seq<char>, b1: Seq<char>, h2: Seq<char>, b2: Seq<char>)
    requires
        is_segment(h1),
        is_segment(h2),
        local_ref_name_of(h1, b1) == local_ref_name_of(h2, b2),
    ensures
        h1 == h2,
        b1 == b2,
{
    assert(local_ref_name_of(h1, b1) =~= ref_root() + (h1 + "/"@ + b1));
    assert(local_ref_name_of(h2, b2) =~= ref_root() + (h2 + "/"@ + b2));
    lemma_strip_root(h1 + "/"@ + b1, h2 + "/"@ + b2);
    lemma_segment_split(h1, b1, h2, b2);
}

/// Two (user, host, branch) triples with the same remote ref name are the same triple.
proof fn lemma_remote_ref_name_unique(
    u1: Seq<char>,
    h1: Seq<char>,
    b1: Seq<char>,
    u2: Seq<char>,
    h2: Seq<char>,
    b2: Seq<char>,
)
    requires
        is_segment(u1),
        is_segment(h1),
        is_segment(u2),
        is_segment(h2),
        remote_ref_name_of(u1, h1, b1) == remote_ref_name_of(u2, h2, b2),
    ensures
        u1 == u2,
        h1 == h2,
        b1 == b2,
{
    assert(remote_ref_name_of(u1, h1, b1) =~= ref_root() + (u1 + "/"@ + (h1 + "/"@ + b1)));
    assert(remote_ref_name_of(u2, h2, b2) =~= ref_root() + (u2 + "/"@ + (h2 + "/"@ + b2)));
    lemma_strip_root(u1 + "/"@ + (h1 + "/"@ + b1), u2 + "/"@ + (h2 + "/"@ + b2));
    lemma_segment_split(u1, h1 + "/"@ + b1, u2, h2 + "/"@ + b2);
    lemma_segment_split(h1, b1, h2, b2);
}

/// Parsing the local ref name of a host and a branch gives back that host and that branch,
/// also where the branch contains `/`. The host must be a single segment.
pub proof fn lemma_local_ref_round_trip(host: Seq<char>, branch: Seq<char>)
    requires
        is_segment(host),
    ensures
        parse_local_ref_name(local_ref_name_of(host, branch)) == Some((host, branch)),
{
    let name = local_ref_name_of(host, branch);
    assert(is_segment((host, branch).0) && name == local_ref_name_of((host, branch).0, (host, branch).1));
    let p = choose|p: (Seq<char>, Seq<char>)|
        is_segment(p.0) && name == #[trigger] local_ref_name_of(p.0, p.1);
    lemma_local_ref_name_unique(p.0, p.1, host, branch);
}

/// Parsing the remote ref name of a user, a host and a branch gives back that user, that host
/// and that branch, also where the branch contains `/`. User and host must be single segments.
pub proof fn lemma_remote_ref_round_trip(user: Seq<char>, host: Seq<char>, branch: Seq<char>)
    requires
        is_segment(user),
        is_segment(host),
    ensures
        parse_remote_ref_name(remote_ref_name_of(user, host, branch)) == Some((user, host, branch)),
{
    let name = remote_ref_name_of(user, host, branch);
    let t = (user, host, branch);
    assert(is_segment(t.0) && is_segment(t.1) && name == remote_ref_name_of(t.0, t.1, t.2));
    let p = choose|p: (Seq<char>, Seq<char>, Seq<char>)|
        is_segment(p.0) && is_segment(p.1) && name == #[trigger] remote_ref_name_of(p.0, p.1, p.2);
    lemma_remote_ref_name_unique(p.0, p.1, p.2, user, host, branch);
}

/// `refs/nomad/`.
fn ref_root_string() -> (r: String)
    ensures
        r@ == ref_root(),
{
    let mut r = String::from_str("refs/");
    r.append(PREFIX);
    r.append("/");
    r
}

/// The local ref name `refs/nomad/<host>/<branch>`.
pub fn local_ref_name(host: &Host, branch: &Branch) -> (r: String)
    ensures
        r@ == local_ref_name_of(host@, branch@),
{
    let mut r = ref_root_string();
    r.append(host.0.as_str());
    r.append("/");
    r.append(branch.0.as_str());
    r
}

/// The remote ref name `refs/nomad/<user>/<host>/<branch>`.
pub fn remote_ref_name(user: &User, host: &Host, branch: &Branch) -> (r: String)
    ensures
        r@ == remote_ref_name_of(user@, host@, branch@),
{
    let mut r = ref_root_string();
    r.append(user.0.as_str());
    r.append("/");
    r.append(host.0.as_str());
    r.append("/");
    r.append(branch.0.as_str());
    r
}

/// The (host, branch) that a local ref name stands for, or `None` for a ref outside nomad's
/// local naming scheme.
pub fn parse_local_ref(name: &str) -> (r: Option<(Host, Branch)>)
    ensures
        r matches Some((h, b)) ==> parse_local_ref_name(name@) == Some((h@, b@)),
        r is None ==> parse_local_ref_name(name@) is None,
{
    let v = chars_of(name);
    let root = ref_root_string();
    let root_chars = chars_of(root.as_str());
    let k = root_chars.len();
    if !has_prefix(&v, &root_chars) {
        proof {
            assert forall|p: (Seq<char>, Seq<char>)|
                is_segment(p.0) implies name@ != #[trigger] local_ref_name_of(p.0, p.1) by {
                if name@ == local_ref_name_of(p.0, p.1) {
                    assert(name@.take(k as int) =~= ref_root());
                }
            }
        }
        return None;
    }
    match find_char(&v, k, '/') {
        Some(j) => {
            let host = Host(string_of_range(&v, k, j));
            let branch = Branch(string_of_range(&v, j + 1, v.len()));
            proof {
                reveal_strlit("/");
                assert(name@ =~= local_ref_name_of(host@, branch@));
                assert(is_segment(host@));
                let p = (host@, branch@);
                assert(is_segment(p.0) && name@ == local_ref_name_of(p.0, p.1));
                let q = choose|q: (Seq<char>, Seq<char>)|
                    is_segment(q.0) && name@ == #[trigger] local_ref_name_of(q.0, q.1);
                lemma_local_ref_name_unique(q.0, q.1, host@, branch@);
            }
            Some((host, branch))
        },
        None => {
            proof {
                reveal_strlit("/");
                assert forall|p: (Seq<char>, Seq<char>)|
                is_segment(p.0) implies name@ != #[trigger] local_ref_name_of(p.0, p.1) by {
                    if name@ == local_ref_name_of(p.0, p.1) {
                        assert(name@[k + p.0.len()] == '/');
                    }
                }
            }
            None
        },
    }
}

/// The (user, host, branch) that a remote ref name stands for, or `None` for a ref outside
/// nomad's remote naming scheme.
pub fn parse_remote_ref(name: &str) -> (r: Option<(User, Host, Branch)>)
    ensures
        r matches Some((u, h, b)) ==> parse_remote_ref_name(name@) == Some((u@, h@, b@)),
        r is None ==> parse_remote_ref_name(name@) is None,
{
    let v = chars_of(name);
    let root = ref_root_string();
    let root_chars = chars_of(root.as_str());
    let k = root_chars.len();
    if !has_prefix(&v, &root_chars) {
        proof {
            assert forall|p: (Seq<char>, Seq<char>, Seq<char>)|
                is_segment(p.0) && is_segment(p.1) implies name@
                    != #[trigger] remote_ref_name_of(p.0, p.1, p.2) by {
                if name@ == remote_ref_name_of(p.0, p.1, p.2) {
                    assert(name@.take(k as int) =~= ref_root());
                }
            }
        }
        return None;
    }
    let found_user_end = find_char(&v, k, '/');
    if found_user_end.is_none() {
        proof {
            reveal_strlit("/");
            assert forall|p: (Seq<char>, Seq<char>, Seq<char>)|
                is_segment(p.0) && is_segment(p.1) implies name@
                    != #[trigger] remote_ref_name_of(p.0, p.1, p.2) by {
                if name@ == remote_ref_name_of(p.0, p.1, p.2) {
                    assert(name@[k + p.0.len()] == '/');
                }
            }
        }
        return None;
    }
    let j1 = found_user_end.unwrap();
    let found_host_end = find_char(&v, j1 + 1, '/');
    if found_host_end.is_none() {
        proof {
            reveal_strlit("/");
            assert forall|p: (Seq<char>, Seq<char>, Seq<char>)|
                is_segment(p.0) && is_segment(p.1) implies name@
                    != #[trigger] remote_ref_name_of(p.0, p.1, p.2) by {
                if name@ == remote_ref_name_of(p.0, p.1, p.2) {
                    assert(name@[k + p.0.len()] == '/');
                    if p.0.len() < j1 - k {
                        assert(v@[k + p.0.len()] != '/');
                    }
                    if p.0.len() > j1 - k {
                        assert(p.0[j1 - k] == '/');
                    }
                    assert(name@[k + p.0.len() + 1 + p.1.len()] == '/');
                }
            }
        }
        return None;
    }
    let j2 = found_host_end.unwrap();
    let user = User(string_of_range(&v, k, j1));
    let host = Host(string_of_range(&v, j1 + 1, j2));
    let branch = Branch(string_of_range(&v, j2 + 1, v.len()));
    proof {
        reveal_strlit("/");
        assert(name@ =~= remote_ref_name_of(user@, host@, branch@));
        let p = (user@, host@, branch@);
        assert(is_segment(p.0) && is_segment(p.1) && name@ == remote_ref_name_of(p.0, p.1, p.2));
        let q = choose|q: (Seq<char>, Seq<char>, Seq<char>)|
            is_segment(q.0) && is_segment(q.1) && name@ == #[trigger] remote_ref_name_of(q.0, q.1, q.2);
        lemma_remote_ref_name_unique(q.0, q.1, q.2, user@, host@, branch@);
    }
    Some((user, host, branch))
}

/// Where a nomad setting named `key` is stored in `git config`: `nomad.<key>`.
pub fn config_key(key: &str) -> (r: String)
    ensures
        r@ == PREFIX@ + "."@ + key@,
{
    let mut r = String::from_str(PREFIX);
    r.append(".");
    r.append(key);
    r
}

/// The pattern of all the remote nomad refs of `user`: `refs/nomad/<user>/*`.
pub open spec fn list_refspec_of(user: Seq<char>) -> Seq<char> {
    ref_root() + user + "/*"@
}

/// The refspec to list the remote nomad refs of `user`.
pub fn list_refspec(user: &User) -> (r: String)
    ensures
        r@ == list_refspec_of(user@),
{
    let mut r = ref_root_string();
    r.append(user.0.as_str());
    r.append("/*");
    r
}

/// The refspec to fetch the remote nomad refs of `user` as local nomad refs, dropping the user
/// segment: `refs/nomad/rraval/apollo/master` becomes `refs/nomad/apollo/master`.
pub fn fetch_refspec(user: &User) -> (r: String)
    ensures
        r@ == "+"@ + list_refspec_of(user@) + ":"@ + ref_root() + "*"@,
{
    let mut r = String::from_str("+");
    let pattern = list_refspec(user);
    r.append(pattern.as_str());
    r.append(":");
    let root = ref_root_string();
    r.append(root.as_str());
    r.append("*");
    r
}

/// The refspec to force push every local branch of `host` into its own region of the remote:
/// on host `boreas`, `refs/heads/feature` becomes `refs/nomad/rraval/boreas/feature`.
pub fn push_refspec(user: &User, host: &Host) -> (r: String)
    ensures
        r@ == "+refs/heads/*:"@ + ref_root() + user@ + "/"@ + host@ + "/*"@,
{
    let mut r = String::from_str("+refs/heads/*:");
    let root = ref_root_string();
    r.append(root.as_str());
    r.append(user.0.as_str());
    r.append("/");
    r.append(host.0.as_str());
    r.append("/*");
    r
}

/// The refspec that deletes the remote ref `name` when pushed: an empty source, then `name`.
pub fn delete_refspec(name: &str) -> (r: String)
    ensures
        r@ == ":"@ + name@,
{
    let mut r = String::from_str(":");
    r.append(name);
    r
}

impl<Ref> NomadRef<Ref> {
    /// The name of this ref in a local clone, which leaves out the user.
    pub fn to_git_local_ref(&self) -> (r: String)
        ensures
            r@ == local_ref_name_of(self.host@, self.branch@),
    {
        local_ref_name(&self.host, &self.branch)
    }

    /// The name of this ref on the remote, which may be shared by many users and so names the
    /// user too.
    pub fn to_git_remote_ref(&self) -> (r: String)
        ensures
            r@ == remote_ref_name_of(self.user@, self.host@, self.branch@),
    {
        remote_ref_name(&self.user, &self.host, &self.branch)
    }
}

impl NomadRef<GitRef> {
    /// Reads a git ref of the local clone as a nomad ref of `user`, or hands the git ref back
    /// when its name is outside nomad's local naming scheme.
    pub fn from_git_local_ref(user: &User, git_ref: GitRef) -> (r: Result<NomadRef<GitRef>, GitRef>)
        ensures
            r matches Ok(n) ==> parse_local_ref_name(git_ref.name@) == Some((n.host@, n.branch@))
                && n.user@ == user@ && n.ref_ == git_ref,
            r matches Err(g) ==> g == git_ref && parse_local_ref_name(git_ref.name@) is None,
    {
        match parse_local_ref(git_ref.name.as_str()) {
            Some((host, branch)) => Ok(NomadRef { user: user.duplicate(), host, branch, ref_: git_ref }),
            None => Err(git_ref),
        }
    }

    /// Reads a git ref of the remote as a nomad ref, or hands the git ref back when its name is
    /// outside nomad's remote naming scheme.
    pub fn from_git_remote_ref(git_ref: GitRef) -> (r: Result<NomadRef<GitRef>, GitRef>)
        ensures
            r matches Ok(n) ==> parse_remote_ref_name(git_ref.name@) == Some(
                (n.user@, n.host@, n.branch@),
            ) && n.ref_ == git_ref,
            r matches Err(g) ==> g == git_ref && parse_remote_ref_name(git_ref.name@) is None,
    {
        match parse_remote_ref(git_ref.name.as_str()) {
            Some((user, host, branch)) => Ok(NomadRef { user, host, branch, ref_: git_ref }),
            None => Err(git_ref),
        }
    }
}

} // verus!
