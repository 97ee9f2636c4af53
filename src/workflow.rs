//! What the user invoked workflows decide: what `ls` prints, and what `sync` and `purge` delete.
//!
//! Running the git commands is left to the caller; the functions here take what the commands
//! reported and return what to print or run next.
use crate::filter::Filter;
use crate::git_binary::{
    head_branch_name, local_nomad_view, nomad_view, remote_nomad_view, GitBinary, GitInvocation,
};
use crate::git_ref::{
    first_bad_line, is_ref_line, parse_ref_lines, refs_of_lines, GitRef, GitRefParseError,
};
use crate::namespace::{list_refspec_of, ref_root};
use crate::snapshot::{
    branch_names, is_sorted_grouping, prune_decision, prune_hosts_decision, PruneFrom, Snapshot,
};
use crate::text::lines_of;
use crate::types::{Branch, Host, NomadRef, Remote, RemoteNomadRefSet, User};
use vstd::prelude::*;

verus! {

/// How `ls` prints each nomad ref.
#[derive(Copy, Clone, Debug, PartialEq, Eq, Structural)]
pub enum LsPrinter {
    /// A line per host, then an indented `<ref name> -> <commit id>` line per ref.
    Grouped,
    /// Only the ref name.
    Ref,
    /// Only the commit id.
    Commit,
}

/// What `printer` prints for a host.
pub open spec fn host_text(printer: LsPrinter, host: Seq<char>) -> Seq<char> {
    match printer {
        LsPrinter::Grouped => host + "\n"@,
        _ => Seq::empty(),
    }
}

/// What `printer` prints for a ref.
pub open spec fn ref_text(printer: LsPrinter, git_ref: GitRef) -> Seq<char> {
    match printer {
        LsPrinter::Grouped => "  "@ + git_ref.name@ + " -> "@ + git_ref.commit_id@ + "\n"@,
        LsPrinter::Ref => git_ref.name@ + "\n"@,
        LsPrinter::Commit => git_ref.commit_id@ + "\n"@,
    }
}

/// What `printer` prints for the refs of one host whose branch passes `branch_filter`.
pub open spec fn refs_text(
    printer: LsPrinter,
    refs: Seq<NomadRef<GitRef>>,
    branch_filter: Filter<Branch>,
) -> Seq<char>
    decreases refs.len(),
{
    if refs.len() == 0 {
        Seq::empty()
    } else {
        refs_text(printer, refs.drop_last(), branch_filter) + if branch_filter.admits(
            &refs.last().branch,
        ) {
            ref_text(printer, refs.last().ref_)
        } else {
            Seq::empty()
        }
    }
}

/// What `printer` prints for the groups whose host passes `host_filter`.
pub open spec fn groups_text(
    printer: LsPrinter,
    groups: Seq<(Host, Vec<NomadRef<GitRef>>)>,
    host_filter: Filter<Host>,
    branch_filter: Filter<Branch>,
) -> Seq<char>
    decreases groups.len(),
{
    if groups.len() == 0 {
        Seq::empty()
    } else {
        groups_text(printer, groups.drop_last(), host_filter, branch_filter) + if host_filter.admits(
            &groups.last().0,
        ) {
            host_text(printer, groups.last().0@) + refs_text(
                printer,
                groups.last().1@,
                branch_filter,
            )
        } else {
            Seq::empty()
        }
    }
}

/// The identities of the given nomad refs.
pub open spec fn nomad_keys(refs: Seq<NomadRef<GitRef>>) -> Set<(Seq<char>, Seq<char>, Seq<char>)> {
    Set::new(
        |k: (Seq<char>, Seq<char>, Seq<char>)|
            exists|i: int| 0 <= i < refs.len() && #[trigger] refs[i].key() == k,
    )
}

impl LsPrinter {
    /// The header printed for a host: its name on a line when grouped, nothing otherwise.
    pub fn print_host(self, host: &Host) -> (r: String)
        ensures
            r@ == host_text(self, host@),
    {
        match self {
            LsPrinter::Grouped => {
                let mut r = host.0.clone();
                r.append("\n");
                r
            },
            LsPrinter::Ref | LsPrinter::Commit => String::new(),
        }
    }

    /// The line printed for a ref.
    pub fn print_ref(self, git_ref: &GitRef) -> (r: String)
        ensures
            r@ == ref_text(self, *git_ref),
    {
        match self {
            LsPrinter::Grouped => {
                let mut r = String::from_str("  ");
                r.append(git_ref.name.as_str());
                r.append(" -> ");
                r.append(git_ref.commit_id.as_str());
                r.append("\n");
                r
            },
            LsPrinter::Ref => {
                let mut r = git_ref.name.clone();
                r.append("\n");
                r
            },
            LsPrinter::Commit => {
                let mut r = git_ref.commit_id.clone();
                r.append("\n");
                r
            },
        }
    }
}

/// The text of `ls`: the snapshot's nomad refs grouped by host in host order, branches in
/// order within each host, keeping the hosts that pass `host_filter` and the branches that
/// pass `branch_filter`.
pub fn ls(
    printer: LsPrinter,
    snapshot: Snapshot<GitRef>,
    host_filter: &Filter<Host>,
    branch_filter: &Filter<Branch>,
) -> (r: String)
    ensures
        exists|groups: Seq<(Host, Vec<NomadRef<GitRef>>)>|
            is_sorted_grouping(groups, snapshot.nomad_refs@) && r@ == groups_text(
                printer,
                groups,
                *host_filter,
                *branch_filter,
            ),
{
    let groups = snapshot.sorted_hosts_and_branches();
    let mut out = String::new();
    let mut g: usize = 0;
    while g < groups.len()
        invariant
            g <= groups.len(),
            out@ == groups_text(printer, groups@.take(g as int), *host_filter, *branch_filter),
        decreases groups.len() - g,
    {
        proof {
            assert(groups@.take(g + 1).drop_last() == groups@.take(g as int));
        }
        let group = &groups[g];
        if host_filter.contains(&group.0) {
            let header = printer.print_host(&group.0);
            out.append(header.as_str());
            let refs = &group.1;
            let ghost before = out@;
            let mut i: usize = 0;
            while i < refs.len()
                invariant
                    i <= refs.len(),
                    out@ == before + refs_text(printer, refs@.take(i as int), *branch_filter),
                decreases refs.len() - i,
            {
                proof {
                    assert(refs@.take(i + 1).drop_last() == refs@.take(i as int));
                }
                if branch_filter.contains(&refs[i].branch) {
                    let line = printer.print_ref(&refs[i].ref_);
                    out.append(line.as_str());
                    assert(out@ =~= before + refs_text(printer, refs@.take(i + 1), *branch_filter));
                } else {
                    assert(out@ =~= before + refs_text(printer, refs@.take(i + 1), *branch_filter));
                }
                i = i + 1;
            }
            assert(refs@.take(refs.len() as int) == refs@);
            assert(out@ =~= groups_text(printer, groups@.take(g + 1), *host_filter, *branch_filter));
        } else {
            assert(out@ =~= groups_text(printer, groups@.take(g + 1), *host_filter, *branch_filter));
        }
        g = g + 1;
    }
    assert(groups@.take(groups.len() as int) == groups@);
    out
}

/// What `sync` deletes once it has pushed, fetched and listed: the nomad refs of the fresh
/// snapshot that automatic pruning picks, seen from `host` and given the nomad refs that the
/// remote listed, deleted remote first, then locally.
pub fn sync(
    git: &GitBinary,
    snapshot: Snapshot<GitRef>,
    host: &Host,
    remote: &Remote,
    remote_nomad_refs: Vec<NomadRef<GitRef>>,
) -> (r: Vec<GitInvocation>)
    ensures
        git.is_prune_plan(remote@, sync_prune(snapshot, host@, remote_nomad_refs@), r@),
{
    let known = RemoteNomadRefSet::from_nomad_refs(remote_nomad_refs);
    assert(known@ =~= nomad_keys(remote_nomad_refs@));
    let prune = snapshot.prune_deleted_branches(host, &known);
    git.prune_nomad_refs(remote, prune)
}

/// What automatic pruning picks from `snapshot`, seen from `host`, given the nomad refs that
/// the remote listed.
pub open spec fn sync_prune(
    snapshot: Snapshot<GitRef>,
    host: Seq<char>,
    remote_nomad_refs: Seq<NomadRef<GitRef>>,
) -> Seq<PruneFrom<GitRef>> {
    snapshot.nomad_refs@.filter_map(
        |n: NomadRef<GitRef>|
            prune_decision(
                n,
                branch_names(snapshot.local_branches@),
                host,
                nomad_keys(remote_nomad_refs),
            ),
    )
}

/// `snapshot` is the snapshot of `user` that the local refs `refs` make up.
pub open spec fn is_snapshot_of(snapshot: Snapshot<GitRef>, user: Seq<char>, refs: Seq<GitRef>) -> bool {
    &&& snapshot.local_branches@.map_values(|b: Branch| b@) == refs.filter_map(
        |g: GitRef| head_branch_name(g.name@),
    )
    &&& snapshot.nomad_refs@.map_values(|n: NomadRef<GitRef>| nomad_view(n)) == refs.filter_map(
        |g: GitRef| local_nomad_view(user, g),
    )
}

/// Every line of `output` is a ref line.
pub open spec fn all_ref_lines(output: Seq<char>, delimiter: char) -> bool {
    forall|i: int| 0 <= i < lines_of(output).len() ==> is_ref_line(#[trigger] lines_of(output)[i], delimiter)
}

/// Where a sync stands, between two git runs.
pub enum SyncStage {
    /// The local branches are being pushed to the remote.
    Pushing,
    /// The nomad refs of the user are being fetched.
    Fetching,
    /// The remote is being asked which nomad refs it has.
    Listing,
    /// The refs of the clone are being read; the remote listed these nomad refs.
    Reading(Vec<NomadRef<GitRef>>),
    /// Deletions are running; these remain, in order.
    Pruning(Vec<GitInvocation>),
    /// Nothing is left to run.
    Done,
}

/// What a sync asks for next.
pub enum SyncAction {
    /// Run this, then hand its output to [`SyncSession::advance`].
    Run(GitInvocation),
    /// The sync is complete.
    Finish,
    /// The output of the last run could not be read; the sync stops.
    Fail(GitRefParseError),
}

/// One sync of the local branches of `host` with the nomad refs on `remote`.
///
/// The order is fixed: push the local branches, fetch every host's refs, list what the remote
/// has, read the clone's refs, then delete what was pruned, remote first. Stopped anywhere,
/// the next sync picks up what is left.
pub struct SyncSession {
    pub user: User,
    pub host: Host,
    pub remote: Remote,
    pub stage: SyncStage,
}

impl SyncSession {
    /// Starts a sync: the first run pushes the local branches.
    pub fn start(git: &GitBinary, user: User, host: Host, remote: Remote) -> (r: (
        SyncSession,
        GitInvocation,
    ))
        ensures
            r.0.stage is Pushing,
            r.0.user == user && r.0.host == host && r.0.remote == remote,
            git.runs(
                r.1,
                seq![
                    "push"@,
                    "--no-verify"@,
                    remote@,
                    "+refs/heads/*:"@ + ref_root() + user@ + "/"@ + host@ + "/*"@,
                ],
                true,
            ),
    {
        let push = git.push_nomad_refs(&user, &host, &remote);
        (SyncSession { user, host, remote, stage: SyncStage::Pushing }, push)
    }

    /// Takes the output of the run that was asked for last, and says what comes next.
    pub fn advance(self, git: &GitBinary, output: &str) -> (r: (SyncSession, SyncAction))
        ensures
            r.0.user == self.user && r.0.host == self.host && r.0.remote == self.remote,
            self.stage is Pushing ==> r.0.stage is Fetching && (r.1 matches SyncAction::Run(inv)
                && git.runs(
                inv,
                seq![
                    "fetch"@,
                    self.remote@,
                    "+"@ + list_refspec_of(self.user@) + ":"@ + ref_root() + "*"@,
                ],
                true,
            )),
            self.stage is Fetching ==> r.0.stage is Listing && (r.1 matches SyncAction::Run(inv)
                && git.runs(inv, seq!["ls-remote"@, self.remote@, list_refspec_of(self.user@)], true)),
            self.stage is Listing && all_ref_lines(output@, '\t') ==> (r.0.stage matches SyncStage::Reading(
                listed,
            ) && exists|refs: Seq<GitRef>|
                refs_of_lines(output@, '\t', refs) && listed@.map_values(
                    |n: NomadRef<GitRef>| nomad_view(n),
                ) == refs.filter_map(|g: GitRef| remote_nomad_view(g))) && (r.1 matches SyncAction::Run(
                inv,
            ) && git.runs(inv, seq!["show-ref"@], false)),
            self.stage is Listing && !all_ref_lines(output@, '\t') ==> r.0.stage is Done && (
            r.1 matches SyncAction::Fail(e) && first_bad_line(output@, '\t', e)),
            self.stage is Reading && !all_ref_lines(output@, ' ') ==> r.0.stage is Done && (
            r.1 matches SyncAction::Fail(e) && first_bad_line(output@, ' ', e)),
            self.stage is Reading && all_ref_lines(output@, ' ') ==> exists|
                refs: Seq<GitRef>,
                snapshot: Snapshot<GitRef>,
                steps: Seq<GitInvocation>,
            |
                {
                    &&& refs_of_lines(output@, ' ', refs)
                    &&& is_snapshot_of(snapshot, self.user@, refs)
                    &&& git.is_prune_plan(
                        self.remote@,
                        sync_prune(snapshot, self.host@, self.stage->Reading_0@),
                        steps,
                    )
                    &&& steps.len() == 0 ==> r.0.stage is Done && r.1 is Finish
                    &&& steps.len() > 0 ==> r.1 == SyncAction::Run(steps[0]) && (
                    r.0.stage matches SyncStage::Pruning(rest) && rest@ == steps.drop_first())
                },
            self.stage matches SyncStage::Pruning(rest) ==> {
                &&& rest.len() == 0 ==> r.0.stage is Done && r.1 is Finish
                &&& rest.len() > 0 ==> r.1 == SyncAction::Run(rest@[0]) && (
                r.0.stage matches SyncStage::Pruning(left) && left@ == rest@.drop_first())
            },
            self.stage is Done ==> r.0.stage is Done && r.1 is Finish,
    {
        let SyncSession { user, host, remote, stage } = self;
        let (stage, action) = match stage {
            SyncStage::Pushing => (SyncStage::Fetching, SyncAction::Run(git.fetch_nomad_refs(&user, &remote))),
            SyncStage::Fetching => (SyncStage::Listing, SyncAction::Run(git.list_nomad_refs(&user, &remote))),
            SyncStage::Listing => match parse_ref_lines(output, '\t') {
                Ok(refs) => {
                    let ghost listed_refs = refs@;
                    let listed = GitBinary::remote_nomad_refs(refs);
                    let read = git.list_refs(String::from_str("Fetching all refs"));
                    proof {
                        assert(refs_of_lines(output@, '\t', listed_refs));
                    }
                    (SyncStage::Reading(listed), SyncAction::Run(read))
                },
                Err(e) => (SyncStage::Done, SyncAction::Fail(e)),
            },
            SyncStage::Reading(listed) => match parse_ref_lines(output, ' ') {
                Ok(refs) => {
                    let ghost local = refs@;
                    let ghost listed_v = listed@;
                    let snapshot = GitBinary::snapshot(&user, refs);
                    let ghost snap = snapshot;
                    let mut steps = sync(git, snapshot, &host, &remote, listed);
                    let ghost all = steps@;
                    proof {
                        assert(refs_of_lines(output@, ' ', local));
                        assert(is_snapshot_of(snap, user@, local));
                        assert(git.is_prune_plan(remote@, sync_prune(snap, host@, listed_v), all));
                    }
                    if steps.len() == 0 {
                        (SyncStage::Done, SyncAction::Finish)
                    } else {
                        let first = steps.remove(0);
                        assert(steps@ =~= all.drop_first());
                        (SyncStage::Pruning(steps), SyncAction::Run(first))
                    }
                },
                Err(e) => (SyncStage::Done, SyncAction::Fail(e)),
            },
            SyncStage::Pruning(mut rest) => {
                if rest.len() == 0 {
                    (SyncStage::Done, SyncAction::Finish)
                } else {
                    let ghost before = rest@;
                    let next = rest.remove(0);
                    assert(rest@ =~= before.drop_first());
                    (SyncStage::Pruning(rest), SyncAction::Run(next))
                }
            },
            SyncStage::Done => (SyncStage::Done, SyncAction::Finish),
        };
        (SyncSession { user, host, remote, stage }, action)
    }
}

/// What `purge` deletes once it has fetched: every nomad ref of the snapshot whose host passes
/// `host_filter`, deleted remote first, then locally.
pub fn purge(
    git: &GitBinary,
    snapshot: Snapshot<GitRef>,
    remote: &Remote,
    host_filter: &Filter<Host>,
) -> (r: Vec<GitInvocation>)
    ensures
        git.is_prune_plan(
            remote@,
            snapshot.nomad_refs@.filter_map(
                |n: NomadRef<GitRef>| prune_hosts_decision(n, host_filter.admits(&n.host)),
            ),
            r@,
        ),
{
    let prune = snapshot.prune_by_hosts(host_filter);
    git.prune_nomad_refs(remote, prune)
}

/// Deletes what `to_prune` picks from the snapshot, after a fetch: remote first, then locally.
pub fn prune<F>(git: &GitBinary, snapshot: Snapshot<GitRef>, remote: &Remote, to_prune: F) -> (r: Vec<
    GitInvocation,
>) where F: Fn(Snapshot<GitRef>) -> Vec<PruneFrom<GitRef>>
    requires
        to_prune.requires((snapshot,)),
    ensures
        exists|picked: Vec<PruneFrom<GitRef>>|
            to_prune.ensures((snapshot,), picked) && git.is_prune_plan(remote@, picked@, r@),
{
    let picked = to_prune(snapshot);
    git.prune_nomad_refs(remote, picked)
}

} // verus!
