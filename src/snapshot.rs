//! A point in time view of the refs nomad cares about in one clone, and the decisions about
//! which nomad refs to delete.
use crate::filter::{list_contains, listed, Filter};
use crate::text::{
    chars_of, lemma_text_lt_asymmetric, lemma_text_lt_total, lemma_text_lt_transitive, text_le,
    text_less, text_lt,
};
use crate::types::{Branch, Host, NomadRef, RemoteNomadRefSet, User};
use vstd::prelude::*;
use vstd::std_specs::cmp::PartialEqSpec;

verus! {

/// A point in time view of refs we care about. A [`Snapshot`] is only for local branches and
/// refs, and so is scoped under a specific [`User`]: every nomad ref in it belongs to that user.
pub struct Snapshot<Ref> {
    /// The active branches in this clone that the user manipulates directly with `git branch`.
    pub local_branches: Vec<Branch>,
    /// The refs that nomad manages to follow the local branches.
    pub nomad_refs: Vec<NomadRef<Ref>>,
    /// The user every nomad ref belongs to.
    pub user: User,
}

/// Describes where a ref should be removed from.
#[derive(Debug, PartialEq, Eq, Clone)]
pub enum PruneFrom<Ref> {
    /// Only the tracking ref in this clone.
    LocalOnly(NomadRef<Ref>),
    /// The tracking ref in this clone and the ref on the remote.
    LocalAndRemote(NomadRef<Ref>),
}

impl<Ref> PruneFrom<Ref> {
    /// The nomad ref to remove.
    pub open spec fn nomad_ref(&self) -> NomadRef<Ref> {
        match self {
            PruneFrom::LocalOnly(n) => *n,
            PruneFrom::LocalAndRemote(n) => *n,
        }
    }
}

/// One more element handled by `Seq::filter_map`.
pub(crate) proof fn lemma_filter_map_step<A, B>(s: Seq<A>, i: int, f: spec_fn(A) -> Option<B>)
    requires
        0 <= i < s.len(),
    ensures
        s.take(i + 1).filter_map(f) == match f(s[i]) {
            Some(b) => s.take(i).filter_map(f) + seq![b],
            None => s.take(i).filter_map(f),
        },
{
    assert(s.take(i + 1).drop_last() == s.take(i));
}

/// The names of the branches.
pub open spec fn branch_names(branches: Seq<Branch>) -> Set<Seq<char>> {
    Set::new(|b: Seq<char>| exists|i: int| 0 <= i < branches.len() && #[trigger] branches[i]@ == b)
}

/// The names of the hosts.
pub open spec fn host_names(hosts: Seq<Host>) -> Set<Seq<char>> {
    Set::new(|h: Seq<char>| exists|i: int| 0 <= i < hosts.len() && #[trigger] hosts[i]@ == h)
}

/// What automatic pruning decides for one nomad ref, seen from `host`.
///
/// A ref of `host` itself is pruned everywhere once its branch is gone from the clone. A ref of
/// another host is pruned locally only, once the remote no longer knows it: that remote path
/// belongs to the other host, which has already deleted it.
pub open spec fn prune_decision<Ref>(
    n: NomadRef<Ref>,
    branches: Set<Seq<char>>,
    host: Seq<char>,
    remote: Set<(Seq<char>, Seq<char>, Seq<char>)>,
) -> Option<PruneFrom<Ref>> {
    if n.host@ == host {
        if branches.contains(n.branch@) {
            None
        } else {
            Some(PruneFrom::LocalAndRemote(n))
        }
    } else if remote.contains(n.key()) {
        None
    } else {
        Some(PruneFrom::LocalOnly(n))
    }
}

/// The refs whose host passes `admitted`, each to be removed everywhere.
pub open spec fn prune_hosts_decision<Ref>(n: NomadRef<Ref>, admitted: bool) -> Option<
    PruneFrom<Ref>,
> {
    if admitted {
        Some(PruneFrom::LocalAndRemote(n))
    } else {
        None
    }
}

/// The refs of all groups, one group after the other.
pub open spec fn flatten_groups<Ref>(groups: Seq<(Host, Vec<NomadRef<Ref>>)>) -> Seq<NomadRef<Ref>>
    decreases groups.len(),
{
    if groups.len() == 0 {
        Seq::empty()
    } else {
        flatten_groups(groups.drop_last()) + groups.last().1@
    }
}

/// Refs ordered by host, then by branch.
pub open spec fn ref_le<Ref>(a: NomadRef<Ref>, b: NomadRef<Ref>) -> bool {
    text_lt(a.host@, b.host@) || (a.host@ == b.host@ && text_le(a.branch@, b.branch@))
}

/// A group of refs: not empty, every ref of the group's host, branches in order.
pub open spec fn is_host_group<Ref>(g: (Host, Vec<NomadRef<Ref>>)) -> bool {
    &&& g.1.len() > 0
    &&& forall|i: int| 0 <= i < g.1.len() ==> (#[trigger] g.1@[i]).host@ == g.0@
    &&& forall|i: int, j: int|
        0 <= i < j < g.1.len() ==> text_le((#[trigger] g.1@[i]).branch@, (#[trigger] g.1@[j]).branch@)
}

/// `groups` holds exactly the refs of `refs`, grouped by host, with the groups ordered by host
/// and the refs of each group ordered by branch.
pub open spec fn is_sorted_grouping<Ref>(
    groups: Seq<(Host, Vec<NomadRef<Ref>>)>,
    refs: Seq<NomadRef<Ref>>,
) -> bool {
    &&& forall|i: int| 0 <= i < groups.len() ==> is_host_group(#[trigger] groups[i])
    &&& forall|i: int, j: int|
        0 <= i < j < groups.len() ==> text_lt((#[trigger] groups[i]).0@, (#[trigger] groups[j]).0@)
    &&& flatten_groups(groups).to_multiset() == refs.to_multiset()
}

/// `text_le` is transitive.
proof fn lemma_text_le_transitive(a: Seq<char>, b: Seq<char>, c: Seq<char>)
    requires
        text_le(a, b),
        text_le(b, c),
    ensures
        text_le(a, c),
{
    if text_lt(a, b) && text_lt(b, c) {
        lemma_text_lt_transitive(a, b, c);
    }
}

/// Of two refs, one is no later than the other in the order by host, then branch.
proof fn lemma_ref_le_total<Ref>(a: NomadRef<Ref>, b: NomadRef<Ref>)
    ensures
        ref_le(a, b) || ref_le(b, a),
{
    lemma_text_lt_total(a.host@, b.host@);
    lemma_text_lt_total(a.branch@, b.branch@);
}

/// The order by host, then branch, is transitive.
proof fn lemma_ref_le_transitive<Ref>(a: NomadRef<Ref>, b: NomadRef<Ref>, c: NomadRef<Ref>)
    requires
        ref_le(a, b),
        ref_le(b, c),
    ensures
        ref_le(a, c),
{
    if text_lt(a.host@, b.host@) && text_lt(b.host@, c.host@) {
        lemma_text_lt_transitive(a.host@, b.host@, c.host@);
    }
    if a.host@ == b.host@ && b.host@ == c.host@ {
        lemma_text_lt_asymmetric(a.host@, a.host@);
        lemma_text_le_transitive(a.branch@, b.branch@, c.branch@);
    }
}

/// The position of a ref of `rest` that no other ref of `rest` precedes.
fn position_of_first<Ref>(rest: &Vec<NomadRef<Ref>>, keys: &Vec<(Vec<char>, Vec<char>)>) -> (m: usize)
    requires
        rest.len() > 0,
        keys.len() == rest.len(),
        forall|i: int|
            0 <= i < rest.len() ==> (#[trigger] keys@[i]).0@ == rest@[i].host@ && keys@[i].1@
                == rest@[i].branch@,
    ensures
        m < rest.len(),
        forall|t: int| 0 <= t < rest.len() ==> ref_le(rest@[m as int], #[trigger] rest@[t]),
{
    let mut m: usize = 0;
    let mut j: usize = 1;
    assert(ref_le(rest@[0], rest@[0])) by {
        lemma_text_lt_total(rest@[0].branch@, rest@[0].branch@);
    }
    while j < rest.len()
        invariant
            m < j <= rest.len(),
            keys.len() == rest.len(),
            forall|i: int|
                0 <= i < rest.len() ==> (#[trigger] keys@[i]).0@ == rest@[i].host@ && keys@[i].1@
                    == rest@[i].branch@,
            forall|t: int| 0 <= t < j ==> ref_le(rest@[m as int], #[trigger] rest@[t]),
        decreases rest.len() - j,
    {
        let kj = &keys[j];
        let km = &keys[m];
        let before = text_less(&kj.0, &km.0) || (rest[j].host == rest[m].host && text_less(
            &kj.1,
            &km.1,
        ));
        proof {
            lemma_ref_le_total(rest@[m as int], rest@[j as int]);
            lemma_text_lt_asymmetric(rest@[j as int].host@, rest@[m as int].host@);
            lemma_text_lt_asymmetric(rest@[j as int].branch@, rest@[m as int].branch@);
        }
        if before {
            assert forall|t: int| 0 <= t < j + 1 implies ref_le(rest@[j as int], #[trigger] rest@[t]) by {
                if t < j {
                    lemma_ref_le_transitive(rest@[j as int], rest@[m as int], rest@[t]);
                } else {
                    lemma_text_lt_total(rest@[t].branch@, rest@[t].branch@);
                }
            }
            m = j;
        }
        j = j + 1;
    }
    m
}

/// A host passes an allow-list exactly when its name is among the listed hosts' names.
proof fn lemma_allowed_host(hosts: Vec<Host>, h: Host)
    ensures
        Filter::Allow(hosts).admits(&h) == host_names(hosts@).contains(h@),
{
    if host_names(hosts@).contains(h@) {
        let i = choose|i: int| 0 <= i < hosts.len() && #[trigger] hosts@[i]@ == h@;
        assert(hosts@[i].eq_spec(&h));
    }
    if listed(hosts@, &h) {
        let i = choose|i: int| 0 <= i < hosts.len() && #[trigger] hosts@[i].eq_spec(&h);
        assert(hosts@[i]@ == h@);
    }
}

/// Pruning by an allow-list of hosts removes, locally and on the remote, exactly the nomad refs
/// of the listed hosts, in their order; the refs of every other host are left alone.
pub proof fn lemma_prune_by_allowed_hosts<Ref>(refs: Seq<NomadRef<Ref>>, hosts: Vec<Host>)
    ensures
        refs.filter_map(
            |n: NomadRef<Ref>| prune_hosts_decision(n, Filter::Allow(hosts).admits(&n.host)),
        ) == refs.filter(|n: NomadRef<Ref>| host_names(hosts@).contains(n.host@)).map_values(
            |n: NomadRef<Ref>| PruneFrom::LocalAndRemote(n),
        ),
    decreases refs.len(),
{
    let f = |n: NomadRef<Ref>| prune_hosts_decision(n, Filter::Allow(hosts).admits(&n.host));
    let keep = |n: NomadRef<Ref>| host_names(hosts@).contains(n.host@);
    let to_prune = |n: NomadRef<Ref>| PruneFrom::LocalAndRemote(n);
    reveal(Seq::filter);
    if refs.len() > 0 {
        lemma_prune_by_allowed_hosts(refs.drop_last(), hosts);
        lemma_allowed_host(hosts, refs.last().host);
        let front = refs.drop_last().filter(keep);
        if keep(refs.last()) {
            assert(refs.filter(keep) == front.push(refs.last()));
            assert(front.push(refs.last()).map_values(to_prune) =~= front.map_values(to_prune) + seq![
                to_prune(refs.last()),
            ]);
        } else {
            assert(refs.filter(keep) == front);
        }
    } else {
        assert(refs.filter(keep) =~= Seq::<NomadRef<Ref>>::empty());
    }
}

/// Whether a branch with the name of `b` is in `branches`.
fn has_branch(branches: &Vec<Branch>, b: &Branch) -> (r: bool)
    ensures
        r == branch_names(branches@).contains(b@),
{
    let r = list_contains(branches, b);
    assert(r == listed(branches@, b));
    assert(listed(branches@, b) ==> branch_names(branches@).contains(b@));
    assert(branch_names(branches@).contains(b@) ==> listed(branches@, b)) by {
        if branch_names(branches@).contains(b@) {
            let i = choose|i: int| 0 <= i < branches.len() && #[trigger] branches@[i]@ == b@;
            assert(branches@[i].eq_spec(b));
        }
    }
    r
}

impl<Ref> Snapshot<Ref> {
    /// Every nomad ref belongs to the snapshot's user.
    pub open spec fn wf(&self) -> bool {
        forall|i: int| 0 <= i < self.nomad_refs.len() ==> #[trigger] self.nomad_refs@[i].user@ == self.user@
    }

    /// Builds a snapshot scoped to `user`; every nomad ref must belong to that user.
    pub fn new(user: &User, local_branches: Vec<Branch>, nomad_refs: Vec<NomadRef<Ref>>) -> (r:
        Snapshot<Ref>)
        requires
            forall|i: int| 0 <= i < nomad_refs.len() ==> #[trigger] nomad_refs@[i].user@ == user@,
        ensures
            r.local_branches == local_branches,
            r.nomad_refs == nomad_refs,
            r.user@ == user@,
            r.wf(),
    {
        Snapshot { local_branches, nomad_refs, user: user.duplicate() }
    }

    /// Finds the nomad refs that can be pruned because:
    /// 1. they are refs of `host` whose local branch no longer exists (pruned locally and on
    ///    the remote), or
    /// 2. they are refs of another host that the remote no longer knows (pruned locally only).
    ///
    /// The result keeps the order of the snapshot's nomad refs.
    pub fn prune_deleted_branches(self, host: &Host, remote_nomad_refs: &RemoteNomadRefSet) -> (r: Vec<
        PruneFrom<Ref>,
    >)
        ensures
            r@ == self.nomad_refs@.filter_map(
                |n: NomadRef<Ref>|
                    prune_decision(
                        n,
                        branch_names(self.local_branches@),
                        host@,
                        remote_nomad_refs@,
                    ),
            ),
    {
        let ghost f = |n: NomadRef<Ref>|
            prune_decision(n, branch_names(self.local_branches@), host@, remote_nomad_refs@);
        let Snapshot { local_branches, nomad_refs, .. } = self;
        let mut prune: Vec<PruneFrom<Ref>> = Vec::new();
        for nomad_ref in it: nomad_refs.into_iter()
            invariant
                it.seq() == self.nomad_refs@,
                local_branches == self.local_branches,
                forall|n: NomadRef<Ref>|
                    #[trigger] f(n) == prune_decision(
                        n,
                        branch_names(self.local_branches@),
                        host@,
                        remote_nomad_refs@,
                    ),
                prune@ == it.seq().take(it.index() as int).filter_map(f),
        {
            proof {
                lemma_filter_map_step(it.seq(), it.index() as int, f);
            }
            if nomad_ref.host == *host {
                if !has_branch(&local_branches, &nomad_ref.branch) {
                    prune.push(PruneFrom::LocalAndRemote(nomad_ref));
                }
            } else if !remote_nomad_refs.contains(&nomad_ref) {
                prune.push(PruneFrom::LocalOnly(nomad_ref));
            }
        }
        proof {
            assert(self.nomad_refs@.take(self.nomad_refs@.len() as int) == self.nomad_refs@);
        }
        prune
    }

    /// Every nomad ref, regardless of host, to be removed locally and on the remote.
    pub fn prune_all(self) -> (r: Vec<PruneFrom<Ref>>)
        ensures
            r@ == self.nomad_refs@.map_values(|n: NomadRef<Ref>| PruneFrom::LocalAndRemote(n)),
    {
        let mut prune: Vec<PruneFrom<Ref>> = Vec::new();
        for nomad_ref in it: self.nomad_refs.into_iter()
            invariant
                it.seq() == self.nomad_refs@,
                prune@ == it.seq().take(it.index() as int).map_values(
                    |n: NomadRef<Ref>| PruneFrom::LocalAndRemote(n),
                ),
        {
            prune.push(PruneFrom::LocalAndRemote(nomad_ref));
            proof {
                assert(it.seq().take(it.index() + 1) == it.seq().take(it.index() as int).push(
                    it.seq()[it.index() as int],
                ));
            }
        }
        proof {
            assert(self.nomad_refs@.take(self.nomad_refs@.len() as int) == self.nomad_refs@);
        }
        prune
    }

    /// The nomad refs of the given hosts, to be removed locally and on the remote; the refs of
    /// other hosts are left alone.
    pub fn prune_all_by_hosts(self, hosts: &Vec<Host>) -> (r: Vec<PruneFrom<Ref>>)
        ensures
            r@ == self.nomad_refs@.filter_map(
                |n: NomadRef<Ref>| prune_hosts_decision(n, host_names(hosts@).contains(n.host@)),
            ),
    {
        let ghost f = |n: NomadRef<Ref>|
            prune_hosts_decision(n, host_names(hosts@).contains(n.host@));
        let mut prune: Vec<PruneFrom<Ref>> = Vec::new();
        for nomad_ref in it: self.nomad_refs.into_iter()
            invariant
                it.seq() == self.nomad_refs@,
                forall|n: NomadRef<Ref>|
                    #[trigger] f(n) == prune_hosts_decision(n, host_names(hosts@).contains(n.host@)),
                prune@ == it.seq().take(it.index() as int).filter_map(f),
        {
            proof {
                lemma_filter_map_step(it.seq(), it.index() as int, f);
            }
            let listed_host = list_contains(hosts, &nomad_ref.host);
            proof {
                if host_names(hosts@).contains(nomad_ref.host@) {
                    let i = choose|i: int| 0 <= i < hosts.len() && #[trigger] hosts@[i]@ == nomad_ref.host@;
                    assert(hosts@[i].eq_spec(&nomad_ref.host));
                }
                if listed_host {
                    let i = choose|i: int|
                        0 <= i < hosts.len() && #[trigger] hosts@[i].eq_spec(&nomad_ref.host);
                    assert(host_names(hosts@).contains(nomad_ref.host@));
                }
            }
            if listed_host {
                prune.push(PruneFrom::LocalAndRemote(nomad_ref));
            }
        }
        proof {
            assert(self.nomad_refs@.take(self.nomad_refs@.len() as int) == self.nomad_refs@);
        }
        prune
    }

    /// The nomad refs whose host passes `host_filter`, to be removed locally and on the remote;
    /// the refs of other hosts are left alone.
    pub fn prune_by_hosts(self, host_filter: &Filter<Host>) -> (r: Vec<PruneFrom<Ref>>)
        ensures
            r@ == self.nomad_refs@.filter_map(
                |n: NomadRef<Ref>| prune_hosts_decision(n, host_filter.admits(&n.host)),
            ),
    {
        let ghost f = |n: NomadRef<Ref>| prune_hosts_decision(n, host_filter.admits(&n.host));
        let mut prune: Vec<PruneFrom<Ref>> = Vec::new();
        for nomad_ref in it: self.nomad_refs.into_iter()
            invariant
                it.seq() == self.nomad_refs@,
                forall|n: NomadRef<Ref>|
                    #[trigger] f(n) == prune_hosts_decision(n, host_filter.admits(&n.host)),
                prune@ == it.seq().take(it.index() as int).filter_map(f),
        {
            proof {
                lemma_filter_map_step(it.seq(), it.index() as int, f);
            }
            if host_filter.contains(&nomad_ref.host) {
                prune.push(PruneFrom::LocalAndRemote(nomad_ref));
            }
        }
        proof {
            assert(self.nomad_refs@.take(self.nomad_refs@.len() as int) == self.nomad_refs@);
        }
        prune
    }
    /// All nomad refs grouped by host: the groups in host order, the refs of each group in
    /// branch order. The order is that of the names' characters, so it is the same on every run.
    pub fn sorted_hosts_and_branches(self) -> (r: Vec<(Host, Vec<NomadRef<Ref>>)>)
        ensures
            is_sorted_grouping(r@, self.nomad_refs@),
    {
        broadcast use vstd::seq_lib::group_to_multiset_ensures;

        let ghost input = self.nomad_refs@;
        let mut rest = self.nomad_refs;
        let mut keys: Vec<(Vec<char>, Vec<char>)> = Vec::new();
        let mut i: usize = 0;
        while i < rest.len()
            invariant
                i <= rest.len(),
                keys.len() == i,
                rest@ == input,
                forall|t: int|
                    0 <= t < i ==> (#[trigger] keys@[t]).0@ == rest@[t].host@ && keys@[t].1@
                        == rest@[t].branch@,
            decreases rest.len() - i,
        {
            keys.push((chars_of(rest[i].host.0.as_str()), chars_of(rest[i].branch.0.as_str())));
            i = i + 1;
        }
        let mut groups: Vec<(Host, Vec<NomadRef<Ref>>)> = Vec::new();
        let mut cur_host = Host(String::new());
        let mut cur: Vec<NomadRef<Ref>> = Vec::new();
        assert((flatten_groups(groups@) + cur@) =~= Seq::<NomadRef<Ref>>::empty());
        assert(Seq::<NomadRef<Ref>>::empty().to_multiset().add(rest@.to_multiset())
            =~= input.to_multiset());
        while rest.len() > 0
            invariant
                keys.len() == rest.len(),
                forall|t: int|
                    0 <= t < rest.len() ==> (#[trigger] keys@[t]).0@ == rest@[t].host@ && keys@[t].1@
                        == rest@[t].branch@,
                (flatten_groups(groups@) + cur@).to_multiset().add(rest@.to_multiset())
                    == input.to_multiset(),
                forall|g: int| 0 <= g < groups.len() ==> is_host_group(#[trigger] groups@[g]),
                forall|g: int, h: int|
                    0 <= g < h < groups.len() ==> text_lt(
                        (#[trigger] groups@[g]).0@,
                        (#[trigger] groups@[h]).0@,
                    ),
                forall|c: int| 0 <= c < cur.len() ==> (#[trigger] cur@[c]).host@ == cur_host@,
                forall|c: int, d: int|
                    0 <= c < d < cur.len() ==> text_le(
                        (#[trigger] cur@[c]).branch@,
                        (#[trigger] cur@[d]).branch@,
                    ),
                cur.len() == 0 ==> groups.len() == 0,
                forall|g: int| 0 <= g < groups.len() ==> text_lt((#[trigger] groups@[g]).0@, cur_host@),
                forall|g: int, t: int|
                    0 <= g < groups.len() && 0 <= t < rest.len() ==> text_lt(
                        (#[trigger] groups@[g]).0@,
                        (#[trigger] rest@[t]).host@,
                    ),
                cur.len() > 0 ==> forall|t: int|
                    0 <= t < rest.len() ==> ref_le(cur@.last(), #[trigger] rest@[t]),
            decreases rest.len(),
        {
            let m = position_of_first(&rest, &keys);
            let ghost old_rest = rest@;
            let ghost old_groups = groups@;
            let ghost old_cur = cur@;
            let ghost old_host = cur_host@;
            let ghost emitted = flatten_groups(groups@) + cur@;
            let x = rest.remove(m);
            let _ = keys.remove(m);
            proof {
                assert(x == old_rest[m as int]);
                assert(rest@ == old_rest.remove(m as int));
                assert forall|t: int| 0 <= t < rest.len() implies ref_le(x, #[trigger] rest@[t]) by {
                    if t < m {
                        assert(rest@[t] == old_rest[t]);
                    } else {
                        assert(rest@[t] == old_rest[t + 1]);
                    }
                }
                assert forall|t: int| 0 <= t < rest.len() implies (#[trigger] keys@[t]).0@
                    == rest@[t].host@ && keys@[t].1@ == rest@[t].branch@ by {
                    if t >= m {
                        assert(rest@[t] == old_rest[t + 1]);
                    }
                }
                assert forall|g: int, t: int|
                    0 <= g < groups.len() && 0 <= t < rest.len() implies text_lt(
                    (#[trigger] groups@[g]).0@,
                    (#[trigger] rest@[t]).host@,
                ) by {
                    if t >= m {
                        assert(rest@[t] == old_rest[t + 1]);
                    }
                }
                assert(old_rest.contains(x)) by {
                    assert(old_rest[m as int] == x);
                }
                vstd::seq_lib::to_multiset_contains(old_rest, x);
                vstd::seq_lib::to_multiset_remove(old_rest, m as int);
                assert(rest@.to_multiset() == old_rest.to_multiset().remove(x));
            }
            if cur.len() > 0 && x.host == cur_host {
                cur.push(x);
                proof {
                    assert(flatten_groups(groups@) + cur@ =~= emitted.push(x));
                    assert forall|c: int, d: int|
                        0 <= c < d < cur.len() implies text_le(
                        (#[trigger] cur@[c]).branch@,
                        (#[trigger] cur@[d]).branch@,
                    ) by {
                        if d == cur.len() - 1 && c < d {
                            lemma_text_lt_asymmetric(x.host@, x.host@);
                            if c < old_cur.len() - 1 {
                                lemma_text_le_transitive(
                                    old_cur[c].branch@,
                                    old_cur.last().branch@,
                                    x.branch@,
                                );
                            }
                        }
                    }
                }
            } else {
                let new_host = x.host.duplicate();
                if cur.len() > 0 {
                    groups.push((cur_host, cur));
                    proof {
                        assert(groups@.drop_last() == old_groups);
                        assert(flatten_groups(groups@) == flatten_groups(old_groups) + old_cur);
                        assert(old_rest.contains(x));
                        assert(ref_le(old_cur.last(), x));
                        assert(text_lt(old_host, x.host@));
                        assert forall|t: int| 0 <= t < rest.len() implies text_lt(
                            old_host,
                            (#[trigger] rest@[t]).host@,
                        ) by {
                            assert(ref_le(x, rest@[t]));
                            assert(ref_le(old_cur.last(), rest@[t])) by {
                                if t >= m {
                                    assert(rest@[t] == old_rest[t + 1]);
                                }
                            }
                            lemma_text_lt_asymmetric(x.host@, old_host);
                            lemma_text_lt_asymmetric(old_host, x.host@);
                        }
                        assert forall|g: int| 0 <= g < groups.len() implies text_lt(
                            (#[trigger] groups@[g]).0@,
                            x.host@,
                        ) by {
                            if g < old_groups.len() {
                                lemma_text_lt_transitive(old_groups[g].0@, old_host, x.host@);
                            }
                        }
                    }
                }
                cur_host = new_host;
                cur = Vec::new();
                cur.push(x);
                proof {
                    if old_cur.len() == 0 {
                        assert(emitted =~= flatten_groups(groups@));
                    }
                    assert(flatten_groups(groups@) + cur@ =~= emitted.push(x));
                    assert forall|g: int| 0 <= g < groups.len() implies is_host_group(
                        #[trigger] groups@[g],
                    ) by {
                        if g == old_groups.len() {
                            assert(groups@[g].1@ == old_cur);
                        }
                    }
                    assert forall|g: int, h: int|
                        0 <= g < h < groups.len() implies text_lt(
                        (#[trigger] groups@[g]).0@,
                        (#[trigger] groups@[h]).0@,
                    ) by {
                        if h == old_groups.len() {
                            assert(groups@[h].0@ == old_host);
                        }
                    }
                    assert forall|g: int, t: int|
                        0 <= g < groups.len() && 0 <= t < rest.len() implies text_lt(
                        (#[trigger] groups@[g]).0@,
                        (#[trigger] rest@[t]).host@,
                    ) by {
                        if g == old_groups.len() {
                            assert(groups@[g].0@ == old_host);
                        }
                    }
                    assert forall|g: int| 0 <= g < groups.len() implies text_lt(
                        (#[trigger] groups@[g]).0@,
                        cur_host@,
                    ) by {
                        if g == old_groups.len() {
                            assert(groups@[g].0@ == old_host);
                        }
                    }
                }
            }
            proof {
                vstd::seq_lib::to_multiset_build(emitted, x);
                assert((flatten_groups(groups@) + cur@).to_multiset() == emitted.to_multiset().insert(x));
                assert((flatten_groups(groups@) + cur@).to_multiset().add(rest@.to_multiset())
                    =~= emitted.to_multiset().add(old_rest.to_multiset()));
            }
        }
        if cur.len() > 0 {
            let ghost old_groups = groups@;
            let ghost old_cur = cur@;
            groups.push((cur_host, cur));
            proof {
                assert(groups@.drop_last() == old_groups);
                assert(flatten_groups(groups@) == flatten_groups(old_groups) + old_cur);
                assert forall|g: int| 0 <= g < groups.len() implies is_host_group(
                    #[trigger] groups@[g],
                ) by {
                    if g == old_groups.len() {
                        assert(groups@[g].1@ == old_cur);
                    }
                }
                assert forall|g: int, h: int|
                    0 <= g < h < groups.len() implies text_lt(
                    (#[trigger] groups@[g]).0@,
                    (#[trigger] groups@[h]).0@,
                ) by {
                    if h == old_groups.len() {
                        assert(groups@[h].0@ == cur_host@);
                    }
                }
            }
        } else {
            assert(groups@.len() == 0);
            assert(flatten_groups(groups@) + cur@ =~= flatten_groups(groups@));
        }
        proof {
            assert(rest@.len() == 0);
            assert(rest@.to_multiset() =~= vstd::multiset::Multiset::empty());
            assert(flatten_groups(groups@).to_multiset() =~= flatten_groups(groups@).to_multiset().add(
                vstd::multiset::Multiset::empty(),
            ));
        }
        groups
    }
}

} // verus!
