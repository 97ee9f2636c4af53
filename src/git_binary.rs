//! The git commands that nomad runs, and how their output is read.
//!
//! [`GitBinary`] describes each command as a [`GitInvocation`]; running it is left to the
//! caller, which hands the output back to the functions here.
use crate::git_ref::GitRef;
use crate::line_arity::{LineArity, LineArityError};
use crate::namespace::{
    config_key, delete_refspec, fetch_refspec, is_local_ref_name, is_segment, list_refspec,
    local_ref_name_of, parse_local_ref_name, parse_remote_ref_name, push_refspec,
    remote_ref_name_of, PREFIX,
};
use crate::snapshot::{PruneFrom, Snapshot};
use crate::text::{lines_of, string_views, strip_prefix};
use crate::types::{Branch, Host, NomadRef, Remote, User};
use crate::verbosity::{is_output_allowed, Verbosity};
use vstd::prelude::*;

verus! {

/// One run of the git binary: its arguments, a description for the user, and whether the run
/// is notable enough to be shown at standard verbosity.
#[derive(Debug, Clone)]
pub struct GitInvocation {
    /// What the run does, in words.
    pub description: String,
    /// The arguments after the binary's name.
    pub args: Vec<String>,
    /// A slow or otherwise important run.
    pub notable: bool,
}

/// Repository manipulations by way of some `git` binary on the system.
#[derive(Debug, Clone)]
pub struct GitBinary {
    /// How to report the commands that run.
    pub verbosity: Option<Verbosity>,
    /// The name of the `git` binary to use; a name without a path is looked up in `$PATH`.
    pub name: String,
    /// The absolute path to the `.git` directory of the repository.
    pub git_dir: String,
}

/// The name of a local branch ref, without `refs/heads/`, or `None` for other refs.
pub open spec fn head_branch_name(name: Seq<char>) -> Option<Seq<char>> {
    if "refs/heads/"@.len() <= name.len() && name.take("refs/heads/"@.len() as int)
        == "refs/heads/"@ {
        Some(name.skip("refs/heads/"@.len() as int))
    } else {
        None
    }
}

/// No ref is both a local branch and a local nomad ref: the two live under different
/// hierarchies, so classifying each ref both ways never counts one twice.
pub proof fn lemma_branch_and_nomad_ref_are_apart(name: Seq<char>)
    ensures
        head_branch_name(name) is Some ==> parse_local_ref_name(name) is None,
{
    reveal_strlit("refs/heads/");
    reveal_strlit("refs/");
    reveal_strlit("nomad");
    reveal_strlit("/");
    if head_branch_name(name) is Some && is_local_ref_name(name) {
        let p = choose|p: (Seq<char>, Seq<char>)|
            is_segment(p.0) && name == #[trigger] local_ref_name_of(p.0, p.1);
        assert("refs/heads/"@.len() == 11);
        assert(name.take(11)[5] == name[5]);
        assert(name[5] == 'h');
        assert(local_ref_name_of(p.0, p.1)[5] == 'n');
    }
}

/// The identity of a nomad ref together with its git ref.
pub open spec fn nomad_view(n: NomadRef<GitRef>) -> (Seq<char>, Seq<char>, Seq<char>, GitRef) {
    (n.user@, n.host@, n.branch@, n.ref_)
}

/// What a local git ref is to nomad: a ref of `user` when its name is a local nomad ref name.
pub open spec fn local_nomad_view(user: Seq<char>, g: GitRef) -> Option<
    (Seq<char>, Seq<char>, Seq<char>, GitRef),
> {
    match parse_local_ref_name(g.name@) {
        Some((h, b)) => Some((user, h, b, g)),
        None => None,
    }
}

/// What a remote git ref is to nomad: a nomad ref when its name is a remote nomad ref name.
pub open spec fn remote_nomad_view(g: GitRef) -> Option<(Seq<char>, Seq<char>, Seq<char>, GitRef)> {
    match parse_remote_ref_name(g.name@) {
        Some((u, h, b)) => Some((u, h, b, g)),
        None => None,
    }
}

/// The refspec that deletes a pruned ref on the remote, where it is to be deleted there.
pub open spec fn remote_deletion(p: PruneFrom<GitRef>) -> Option<Seq<char>> {
    match p {
        PruneFrom::LocalAndRemote(n) => Some(":"@ + remote_ref_name_of(n.user@, n.host@, n.branch@)),
        PruneFrom::LocalOnly(_) => None,
    }
}

/// The refspecs that delete, on the remote, the refs to be pruned there.
pub open spec fn remote_deletions(prune: Seq<PruneFrom<GitRef>>) -> Seq<Seq<char>> {
    prune.filter_map(|p: PruneFrom<GitRef>| remote_deletion(p))
}

impl GitBinary {
    /// The arguments of a run against this repository: `--git-dir <dir>`, then `args`.
    pub open spec fn with_git_dir(&self, args: Seq<Seq<char>>) -> Seq<Seq<char>> {
        seq!["--git-dir"@, self.git_dir@] + args
    }

    /// `inv` runs `args` against this repository.
    pub open spec fn runs(&self, inv: GitInvocation, args: Seq<Seq<char>>, notable: bool) -> bool {
        string_views(inv.args@) == self.with_git_dir(args) && inv.notable == notable
    }

    /// `steps` delete the pruned refs: first one push that deletes on the remote every ref to be
    /// pruned there (left out when there is none), then, one by one and in order, every pruned
    /// ref in the local clone, each only if it still points at the commit it was read with.
    ///
    /// Interrupted anywhere, this leaves each local ref in place until its remote ref is gone,
    /// so the next sync sees it and prunes it again.
    pub open spec fn is_prune_plan(
        &self,
        remote: Seq<char>,
        prune: Seq<PruneFrom<GitRef>>,
        steps: Seq<GitInvocation>,
    ) -> bool {
        let deletions = remote_deletions(prune);
        let k: int = if deletions.len() > 0 {
            1
        } else {
            0
        };
        &&& steps.len() == k + prune.len()
        &&& deletions.len() > 0 ==> self.runs(
            steps[0],
            seq!["push"@, "--no-verify"@, remote] + deletions,
            true,
        )
        &&& forall|i: int|
            0 <= i < prune.len() ==> self.runs(
                #[trigger] steps[k + i],
                seq![
                    "update-ref"@,
                    "-d"@,
                    prune[i].nomad_ref().ref_.name@,
                    prune[i].nomad_ref().ref_.commit_id@,
                ],
                true,
            )
    }

    /// The run that finds the `.git` directory, relative to the directory it runs in.
    pub fn git_dir_query() -> (r: GitInvocation)
        ensures
            string_views(r.args@) == seq!["rev-parse"@, "--absolute-git-dir"@],
            !r.notable,
    {
        let args = vec![String::from_str("rev-parse"), String::from_str("--absolute-git-dir")];
        assert(string_views(args@) =~= seq!["rev-parse"@, "--absolute-git-dir"@]);
        GitInvocation {
            description: String::from_str("Resolving .git directory"),
            args,
            notable: false,
        }
    }

    /// A [`GitBinary`] for the repository whose `.git` directory the output of
    /// [`GitBinary::git_dir_query`] names; that output must be exactly one line.
    pub fn new(verbosity: Option<Verbosity>, name: String, git_dir_output: String) -> (r: Result<
        GitBinary,
        LineArityError,
    >)
        ensures
            r is Ok <==> lines_of(git_dir_output@).len() == 1 && lines_of(git_dir_output@)[0].len()
                > 0,
            r matches Ok(g) ==> g.git_dir@ == lines_of(git_dir_output@)[0] && g.name == name
                && g.verbosity == verbosity,
    {
        let git_dir = LineArity::from_output(git_dir_output).one()?;
        Ok(GitBinary { verbosity, name, git_dir })
    }

    /// A run of `args` against this repository.
    fn invocation(&self, description: String, notable: bool, args: Vec<String>) -> (r: GitInvocation)
        ensures
            self.runs(r, string_views(args@), notable),
            r.description == description,
    {
        let mut full = vec![String::from_str("--git-dir"), self.git_dir.clone()];
        let mut rest = args;
        full.append(&mut rest);
        assert(string_views(full@) =~= self.with_git_dir(string_views(args@)));
        GitInvocation { description, args: full, notable }
    }

    /// Reads the nomad setting `key` from `git config`. An unset key prints nothing rather than
    /// failing; read the output with [`GitBinary::config_value`].
    pub fn get_config(&self, key: &str) -> (r: GitInvocation)
        ensures
            self.runs(
                r,
                seq!["config"@, "--default"@, ""@, "--get"@, PREFIX@ + "."@ + key@],
                false,
            ),
    {
        let mut description = String::from_str("Get config ");
        description.append(key);
        let args = vec![
            String::from_str("config"),
            String::from_str("--default"),
            String::from_str(""),
            String::from_str("--get"),
            config_key(key),
        ];
        assert(string_views(args@) =~= seq![
            "config"@,
            "--default"@,
            ""@,
            "--get"@,
            PREFIX@ + "."@ + key@,
        ]);
        self.invocation(description, false, args)
    }

    /// The value that the output of [`GitBinary::get_config`] holds: none for no line, the line
    /// for one, an error for more.
    pub fn config_value(output: String) -> (r: Result<Option<String>, LineArityError>)
        ensures
            r is Ok <==> lines_of(output@).len() <= 1,
            r matches Ok(v) ==> (v is None <==> lines_of(output@).len() == 0 || lines_of(
                output@,
            )[0].len() == 0),
            r matches Ok(Some(v)) ==> v@ == lines_of(output@)[0],
    {
        LineArity::from_output(output).zero_or_one()
    }

    /// Writes the nomad setting `key` into the repository's own `git config`.
    pub fn set_config(&self, key: &str, value: &str) -> (r: GitInvocation)
        ensures
            self.runs(
                r,
                seq!["config"@, "--local"@, "--replace-all"@, PREFIX@ + "."@ + key@, value@],
                false,
            ),
    {
        let mut description = String::from_str("Set config ");
        description.append(key);
        description.append(" = ");
        description.append(value);
        let args = vec![
            String::from_str("config"),
            String::from_str("--local"),
            String::from_str("--replace-all"),
            config_key(key),
            String::from_str(value),
        ];
        assert(string_views(args@) =~= seq![
            "config"@,
            "--local"@,
            "--replace-all"@,
            PREFIX@ + "."@ + key@,
            value@,
        ]);
        self.invocation(description, false, args)
    }

    /// `git <command> [<options>] <remote> <refspecs>...`.
    fn remote_invocation(
        &self,
        description: String,
        command: Vec<String>,
        remote: &Remote,
        refspecs: Vec<String>,
    ) -> (r: GitInvocation)
        ensures
            self.runs(
                r,
                string_views(command@) + seq![remote@] + string_views(refspecs@),
                true,
            ),
            r.description == description,
    {
        let mut args = command;
        let ghost front = args@;
        args.push(remote.0.clone());
        let mut rest = refspecs;
        let ghost back = rest@;
        args.append(&mut rest);
        assert(string_views(args@) =~= string_views(front) + seq![remote@] + string_views(back));
        self.invocation(description, true, args)
    }

    /// Fetches `refspecs` from `remote`. The refspecs must not be empty: git would then fetch
    /// what the user configured, which is never what nomad wants.
    pub fn fetch_refspecs(&self, description: String, remote: &Remote, refspecs: Vec<String>) -> (r:
        GitInvocation)
        requires
            refspecs.len() > 0,
        ensures
            self.runs(r, seq!["fetch"@, remote@] + string_views(refspecs@), true),
    {
        let command = vec![String::from_str("fetch")];
        assert(string_views(command@) =~= seq!["fetch"@]);
        let r = self.remote_invocation(description, command, remote, refspecs);
        assert(seq!["fetch"@] + seq![remote@] =~= seq!["fetch"@, remote@]);
        r
    }

    /// Pushes `refspecs` to `remote`, without running hooks. The refspecs must not be empty:
    /// git would then push what the user configured, which is never what nomad wants.
    pub fn push_refspecs(&self, description: String, remote: &Remote, refspecs: Vec<String>) -> (r:
        GitInvocation)
        requires
            refspecs.len() > 0,
        ensures
            self.runs(r, seq!["push"@, "--no-verify"@, remote@] + string_views(refspecs@), true),
    {
        let command = vec![String::from_str("push"), String::from_str("--no-verify")];
        assert(string_views(command@) =~= seq!["push"@, "--no-verify"@]);
        let r = self.remote_invocation(description, command, remote, refspecs);
        assert(seq!["push"@, "--no-verify"@] + seq![remote@] =~= seq![
            "push"@,
            "--no-verify"@,
            remote@,
        ]);
        r
    }

    /// Lists the refs of `remote` that match `refspecs`. The refspecs must not be empty: git
    /// would then list every ref, which is never what nomad wants.
    pub fn list_remote_refs(&self, description: String, remote: &Remote, refspecs: Vec<String>) -> (r:
        GitInvocation)
        requires
            refspecs.len() > 0,
        ensures
            self.runs(r, seq!["ls-remote"@, remote@] + string_views(refspecs@), true),
    {
        let command = vec![String::from_str("ls-remote")];
        assert(string_views(command@) =~= seq!["ls-remote"@]);
        let r = self.remote_invocation(description, command, remote, refspecs);
        assert(seq!["ls-remote"@] + seq![remote@] =~= seq!["ls-remote"@, remote@]);
        r
    }

    /// Shows the single ref `ref_name`.
    pub fn get_ref(&self, description: String, ref_name: &str) -> (r: GitInvocation)
        ensures
            self.runs(r, seq!["show-ref"@, "--verify"@, ref_name@], false),
    {
        let args = vec![
            String::from_str("show-ref"),
            String::from_str("--verify"),
            String::from_str(ref_name),
        ];
        assert(string_views(args@) =~= seq!["show-ref"@, "--verify"@, ref_name@]);
        self.invocation(description, false, args)
    }

    /// Lists every ref of the repository but `HEAD`, one `<commit_id> <name>` line each.
    pub fn list_refs(&self, description: String) -> (r: GitInvocation)
        ensures
            self.runs(r, seq!["show-ref"@], false),
    {
        let args = vec![String::from_str("show-ref")];
        assert(string_views(args@) =~= seq!["show-ref"@]);
        self.invocation(description, false, args)
    }

    /// Deletes the local ref `git_ref`, but only while it still points at its commit.
    pub fn delete_ref(&self, description: String, git_ref: &GitRef) -> (r: GitInvocation)
        ensures
            self.runs(r, seq!["update-ref"@, "-d"@, git_ref.name@, git_ref.commit_id@], true),
    {
        let args = vec![
            String::from_str("update-ref"),
            String::from_str("-d"),
            git_ref.name.clone(),
            git_ref.commit_id.clone(),
        ];
        assert(string_views(args@) =~= seq![
            "update-ref"@,
            "-d"@,
            git_ref.name@,
            git_ref.commit_id@,
        ]);
        self.invocation(description, true, args)
    }

    /// Prints the current branch; this fails in a detached HEAD state.
    pub fn current_branch(&self) -> (r: GitInvocation)
        ensures
            self.runs(r, seq!["symbolic-ref"@, "--short"@, "HEAD"@], false),
    {
        let args = vec![
            String::from_str("symbolic-ref"),
            String::from_str("--short"),
            String::from_str("HEAD"),
        ];
        assert(string_views(args@) =~= seq!["symbolic-ref"@, "--short"@, "HEAD"@]);
        self.invocation(String::from_str("Reading current branch"), false, args)
    }

    /// The branch that the output of [`GitBinary::current_branch`] names; it must be exactly one
    /// line.
    pub fn branch_of_output(output: String) -> (r: Result<Branch, LineArityError>)
        ensures
            r is Ok <==> lines_of(output@).len() == 1 && lines_of(output@)[0].len() > 0,
            r matches Ok(b) ==> b@ == lines_of(output@)[0],
    {
        let line = LineArity::from_output(output).one()?;
        Ok(Branch(line))
    }

    /// Creates the branch `branch_name` at the current commit.
    pub fn create_branch(&self, description: String, branch_name: &Branch) -> (r: GitInvocation)
        ensures
            self.runs(r, seq!["branch"@, branch_name@], true),
    {
        let args = vec![String::from_str("branch"), branch_name.0.clone()];
        assert(string_views(args@) =~= seq!["branch"@, branch_name@]);
        self.invocation(description, true, args)
    }

    /// Deletes the branch `branch_name`.
    pub fn delete_branch(&self, description: String, branch_name: &Branch) -> (r: GitInvocation)
        ensures
            self.runs(r, seq!["branch"@, "-d"@, branch_name@], true),
    {
        let args = vec![String::from_str("branch"), String::from_str("-d"), branch_name.0.clone()];
        assert(string_views(args@) =~= seq!["branch"@, "-d"@, branch_name@]);
        self.invocation(description, true, args)
    }

    /// Should higher level commands produce output, or has the user asked for quiet?
    pub fn is_output_allowed(&self) -> (r: bool)
        ensures
            r == self.verbosity is Some,
    {
        is_output_allowed(self.verbosity)
    }

    /// Builds the snapshot of `user` from every ref of the clone: the local branches are the
    /// refs under `refs/heads/`, the nomad refs those with a local nomad ref name. Both keep the
    /// order of `refs`; other refs are ignored.
    pub fn snapshot(user: &User, refs: Vec<GitRef>) -> (r: Snapshot<GitRef>)
        ensures
            r.local_branches@.map_values(|b: Branch| b@) == refs@.filter_map(
                |g: GitRef| head_branch_name(g.name@),
            ),
            r.nomad_refs@.map_values(|n: NomadRef<GitRef>| nomad_view(n)) == refs@.filter_map(
                |g: GitRef| local_nomad_view(user@, g),
            ),
            r.user@ == user@,
            r.wf(),
    {
        let ghost fb = |g: GitRef| head_branch_name(g.name@);
        let ghost fr = |g: GitRef| local_nomad_view(user@, g);
        let mut local_branches: Vec<Branch> = Vec::new();
        let mut nomad_refs: Vec<NomadRef<GitRef>> = Vec::new();
        for r in it: refs.into_iter()
            invariant
                it.seq() == refs@,
                forall|g: GitRef| #[trigger] fb(g) == head_branch_name(g.name@),
                forall|g: GitRef| #[trigger] fr(g) == local_nomad_view(user@, g),
                local_branches@.map_values(|b: Branch| b@) == it.seq().take(
                    it.index() as int,
                ).filter_map(fb),
                nomad_refs@.map_values(|n: NomadRef<GitRef>| nomad_view(n)) == it.seq().take(
                    it.index() as int,
                ).filter_map(fr),
                forall|i: int| 0 <= i < nomad_refs.len() ==> #[trigger] nomad_refs@[i].user@ == user@,
        {
            let ghost idx = it.index() as int;
            proof {
                crate::snapshot::lemma_filter_map_step(it.seq(), idx, fb);
                crate::snapshot::lemma_filter_map_step(it.seq(), idx, fr);
                assert(r == it.seq()[idx]);
            }
            let ghost old_branches = local_branches@;
            let ghost old_refs = nomad_refs@;
            match strip_prefix(r.name.as_str(), "refs/heads/") {
                Some(name) => {
                    local_branches.push(Branch(name));
                    assert(local_branches@.map_values(|b: Branch| b@) =~= old_branches.map_values(
                        |b: Branch| b@,
                    ).push(fb(r).unwrap()));
                },
                None => {},
            }
            match NomadRef::<GitRef>::from_git_local_ref(user, r) {
                Ok(n) => {
                    nomad_refs.push(n);
                    assert(nomad_refs@.map_values(|n: NomadRef<GitRef>| nomad_view(n))
                        =~= old_refs.map_values(
                        |n: NomadRef<GitRef>| nomad_view(n),
                    ).push(fr(it.seq()[idx]).unwrap()));
                },
                Err(_) => {},
            }
        }
        proof {
            assert(refs@.take(refs@.len() as int) == refs@);
        }
        Snapshot::new(user, local_branches, nomad_refs)
    }

    /// The nomad refs among the refs that a remote listed, in order; other refs are ignored.
    pub fn remote_nomad_refs(refs: Vec<GitRef>) -> (r: Vec<NomadRef<GitRef>>)
        ensures
            r@.map_values(|n: NomadRef<GitRef>| nomad_view(n)) == refs@.filter_map(
                |g: GitRef| remote_nomad_view(g),
            ),
    {
        let ghost f = |g: GitRef| remote_nomad_view(g);
        let mut nomad_refs: Vec<NomadRef<GitRef>> = Vec::new();
        for r in it: refs.into_iter()
            invariant
                it.seq() == refs@,
                forall|g: GitRef| #[trigger] f(g) == remote_nomad_view(g),
                nomad_refs@.map_values(|n: NomadRef<GitRef>| nomad_view(n)) == it.seq().take(
                    it.index() as int,
                ).filter_map(f),
        {
            let ghost idx = it.index() as int;
            proof {
                crate::snapshot::lemma_filter_map_step(it.seq(), idx, f);
                assert(r == it.seq()[idx]);
            }
            let ghost old_refs = nomad_refs@;
            match NomadRef::<GitRef>::from_git_remote_ref(r) {
                Ok(n) => {
                    nomad_refs.push(n);
                    assert(nomad_refs@.map_values(|n: NomadRef<GitRef>| nomad_view(n))
                        =~= old_refs.map_values(
                        |n: NomadRef<GitRef>| nomad_view(n),
                    ).push(f(it.seq()[idx]).unwrap()));
                },
                Err(_) => {},
            }
        }
        proof {
            assert(refs@.take(refs@.len() as int) == refs@);
        }
        nomad_refs
    }

    /// Fetches every remote nomad ref of `user` into the local per-host namespace.
    pub fn fetch_nomad_refs(&self, user: &User, remote: &Remote) -> (r: GitInvocation)
        ensures
            self.runs(
                r,
                seq![
                    "fetch"@,
                    remote@,
                    "+"@ + crate::namespace::list_refspec_of(user@) + ":"@
                        + crate::namespace::ref_root() + "*"@,
                ],
                true,
            ),
    {
        let mut description = String::from_str("Fetching branches from ");
        description.append(remote.0.as_str());
        let refspecs = vec![fetch_refspec(user)];
        let r = self.fetch_refspecs(description, remote, refspecs);
        assert(seq!["fetch"@, remote@] + string_views(refspecs@) =~= seq![
            "fetch"@,
            remote@,
            "+"@ + crate::namespace::list_refspec_of(user@) + ":"@ + crate::namespace::ref_root()
                + "*"@,
        ]);
        r
    }

    /// Lists every remote nomad ref of `user`. This is a query of its own rather than a report
    /// of what a fetch brought, since the output of `git fetch` is not meant to be parsed.
    pub fn list_nomad_refs(&self, user: &User, remote: &Remote) -> (r: GitInvocation)
        ensures
            self.runs(
                r,
                seq!["ls-remote"@, remote@, crate::namespace::list_refspec_of(user@)],
                true,
            ),
    {
        let mut description = String::from_str("Listing branches at ");
        description.append(remote.0.as_str());
        let refspecs = vec![list_refspec(user)];
        let r = self.list_remote_refs(description, remote, refspecs);
        assert(seq!["ls-remote"@, remote@] + string_views(refspecs@) =~= seq![
            "ls-remote"@,
            remote@,
            crate::namespace::list_refspec_of(user@),
        ]);
        r
    }

    /// Force pushes every local branch into the region of the remote that belongs to `host`.
    pub fn push_nomad_refs(&self, user: &User, host: &Host, remote: &Remote) -> (r: GitInvocation)
        ensures
            self.runs(
                r,
                seq![
                    "push"@,
                    "--no-verify"@,
                    remote@,
                    "+refs/heads/*:"@ + crate::namespace::ref_root() + user@ + "/"@ + host@ + "/*"@,
                ],
                true,
            ),
    {
        let mut description = String::from_str("Pushing local branches to ");
        description.append(remote.0.as_str());
        let refspecs = vec![push_refspec(user, host)];
        let r = self.push_refspecs(description, remote, refspecs);
        assert(seq!["push"@, "--no-verify"@, remote@] + string_views(refspecs@) =~= seq![
            "push"@,
            "--no-verify"@,
            remote@,
            "+refs/heads/*:"@ + crate::namespace::ref_root() + user@ + "/"@ + host@ + "/*"@,
        ]);
        r
    }

    /// The runs that delete the given refs: remote deletions first, in one push, then each
    /// local ref.
    pub fn prune_nomad_refs(&self, remote: &Remote, prune: Vec<PruneFrom<GitRef>>) -> (r: Vec<
        GitInvocation,
    >)
        ensures
            self.is_prune_plan(remote@, prune@, r@),
    {
        let ghost f = |p: PruneFrom<GitRef>| remote_deletion(p);
        let mut refspecs: Vec<String> = Vec::new();
        let mut refs: Vec<GitRef> = Vec::new();
        for prune_from in it: prune.into_iter()
            invariant
                it.seq() == prune@,
                forall|p: PruneFrom<GitRef>| #[trigger] f(p) == remote_deletion(p),
                string_views(refspecs@) == it.seq().take(it.index() as int).filter_map(f),
                refs.len() == it.index(),
                forall|i: int| 0 <= i < refs.len() ==> #[trigger] refs@[i] == prune@[i].nomad_ref().ref_,
        {
            let ghost idx = it.index() as int;
            proof {
                crate::snapshot::lemma_filter_map_step(it.seq(), idx, f);
                assert(prune_from == it.seq()[idx]);
            }
            let ghost old_specs = refspecs@;
            if let PruneFrom::LocalAndRemote(ref nomad_ref) = prune_from {
                let name = nomad_ref.to_git_remote_ref();
                refspecs.push(delete_refspec(name.as_str()));
                assert(string_views(refspecs@) =~= string_views(old_specs).push(
                    f(prune_from).unwrap(),
                ));
            }
            let git_ref = match prune_from {
                PruneFrom::LocalOnly(nomad_ref) => nomad_ref.ref_,
                PruneFrom::LocalAndRemote(nomad_ref) => nomad_ref.ref_,
            };
            refs.push(git_ref);
        }
        proof {
            assert(prune@.take(prune@.len() as int) == prune@);
            assert(f == (|p: PruneFrom<GitRef>| remote_deletion(p)));
        }
        let ghost deletions = remote_deletions(prune@);
        assert(string_views(refspecs@) == deletions);
        let mut steps: Vec<GitInvocation> = Vec::new();
        let ghost k: int = if deletions.len() > 0 {
            1
        } else {
            0
        };
        if refspecs.len() > 0 {
            let mut description = String::from_str("Pruning branches at ");
            description.append(remote.0.as_str());
            steps.push(self.push_refspecs(description, remote, refspecs));
        }
        let mut i: usize = 0;
        while i < refs.len()
            invariant
                i <= refs.len() == prune.len(),
                deletions == remote_deletions(prune@),
                k == if deletions.len() > 0 {
                    1int
                } else {
                    0int
                },
                forall|j: int| 0 <= j < refs.len() ==> #[trigger] refs@[j] == prune@[j].nomad_ref().ref_,
                steps.len() == k + i,
                deletions.len() > 0 ==> self.runs(
                    steps@[0],
                    seq!["push"@, "--no-verify"@, remote@] + deletions,
                    true,
                ),
                forall|j: int|
                    0 <= j < i ==> self.runs(
                        #[trigger] steps@[k + j],
                        seq![
                            "update-ref"@,
                            "-d"@,
                            prune@[j].nomad_ref().ref_.name@,
                            prune@[j].nomad_ref().ref_.commit_id@,
                        ],
                        true,
                    ),
            decreases refs.len() - i,
        {
            let r = &refs[i];
            let mut description = String::from_str("  Delete ");
            description.append(r.name.as_str());
            description.append(" (was ");
            description.append(r.commit_id.as_str());
            description.append(")");
            let step = self.delete_ref(description, r);
            steps.push(step);
            i = i + 1;
        }
        steps
    }
}

} // verus!
