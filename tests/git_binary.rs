use git_nomad::git_binary::GitBinary;
use git_nomad::git_ref::GitRef;
use git_nomad::snapshot::PruneFrom;
use git_nomad::types::{Branch, Host, NomadRef, Remote, User};
use git_nomad::verbosity::Verbosity;

fn git() -> GitBinary {
    GitBinary::new(Some(Verbosity::standard()), "git".to_string(), "/repo/.git\n".to_string()).unwrap()
}

fn args(strings: &[&str]) -> Vec<String> {
    strings.iter().map(|s| s.to_string()).collect()
}

fn git_ref(commit_id: &str, name: &str) -> GitRef {
    GitRef { commit_id: commit_id.to_string(), name: name.to_string() }
}

#[test]
fn new_reads_the_git_dir_line() {
    let git = git();
    assert_eq!(git.git_dir, "/repo/.git");
    assert_eq!(git.name, "git");
    assert!(git.is_output_allowed());
    assert!(GitBinary::new(None, "git".to_string(), "".to_string()).is_err());
    assert!(GitBinary::new(None, "git".to_string(), "a\nb\n".to_string()).is_err());
    assert!(!GitBinary::new(None, "git".to_string(), "/r/.git".to_string()).unwrap().is_output_allowed());
}

#[test]
fn git_dir_query_args() {
    let q = GitBinary::git_dir_query();
    assert_eq!(q.args, args(&["rev-parse", "--absolute-git-dir"]));
    assert!(!q.notable);
}

#[test]
fn config_invocations() {
    let get = git().get_config("user");
    assert_eq!(get.args, args(&["--git-dir", "/repo/.git", "config", "--default", "", "--get", "nomad.user"]));
    assert_eq!(get.description, "Get config user");
    assert!(!get.notable);
    let set = git().set_config("host", "apollo");
    assert_eq!(set.args, args(&["--git-dir", "/repo/.git", "config", "--local", "--replace-all", "nomad.host", "apollo"]));
    assert_eq!(set.description, "Set config host = apollo");
}

#[test]
fn config_values() {
    assert_eq!(GitBinary::config_value("".to_string()).unwrap(), None);
    assert_eq!(GitBinary::config_value("\n".to_string()).unwrap(), None);
    assert_eq!(GitBinary::config_value("rraval\n".to_string()).unwrap(), Some("rraval".to_string()));
    assert!(GitBinary::config_value("a\nb\n".to_string()).is_err());
}

#[test]
fn nomad_invocations() {
    let user = User::from("rraval");
    let host = Host::from("boreas");
    let remote = Remote::from("origin");
    let push = git().push_nomad_refs(&user, &host, &remote);
    assert_eq!(
        push.args,
        args(&["--git-dir", "/repo/.git", "push", "--no-verify", "origin", "+refs/heads/*:refs/nomad/rraval/boreas/*"])
    );
    assert_eq!(push.description, "Pushing local branches to origin");
    assert!(push.notable);
    let fetch = git().fetch_nomad_refs(&user, &remote);
    assert_eq!(
        fetch.args,
        args(&["--git-dir", "/repo/.git", "fetch", "origin", "+refs/nomad/rraval/*:refs/nomad/*"])
    );
    let list = git().list_nomad_refs(&user, &remote);
    assert_eq!(list.args, args(&["--git-dir", "/repo/.git", "ls-remote", "origin", "refs/nomad/rraval/*"]));
    assert_eq!(list.description, "Listing branches at origin");
}

#[test]
fn ref_and_branch_invocations() {
    let g = git();
    assert_eq!(g.list_refs("all".to_string()).args, args(&["--git-dir", "/repo/.git", "show-ref"]));
    assert_eq!(
        g.get_ref("one".to_string(), "refs/heads/master").args,
        args(&["--git-dir", "/repo/.git", "show-ref", "--verify", "refs/heads/master"])
    );
    assert_eq!(
        g.delete_ref("d".to_string(), &git_ref("c1", "refs/nomad/h/b")).args,
        args(&["--git-dir", "/repo/.git", "update-ref", "-d", "refs/nomad/h/b", "c1"])
    );
    assert_eq!(g.current_branch().args, args(&["--git-dir", "/repo/.git", "symbolic-ref", "--short", "HEAD"]));
    assert_eq!(
        g.create_branch("c".to_string(), &Branch::from("feature")).args,
        args(&["--git-dir", "/repo/.git", "branch", "feature"])
    );
    assert_eq!(
        g.delete_branch("c".to_string(), &Branch::from("feature")).args,
        args(&["--git-dir", "/repo/.git", "branch", "-d", "feature"])
    );
}

#[test]
fn current_branch_output() {
    assert_eq!(GitBinary::branch_of_output("master\n".to_string()).unwrap().0, "master");
    assert!(GitBinary::branch_of_output("".to_string()).is_err());
}

#[test]
fn snapshot_classifies_refs() {
    let user = User::from("user0");
    let refs = vec![
        git_ref("c1", "refs/heads/master"),
        git_ref("c2", "refs/nomad/host1/feature/x"),
        git_ref("c3", "refs/tags/v1"),
        git_ref("c4", "refs/heads/feature/y"),
        git_ref("c5", "refs/remotes/origin/master"),
    ];
    let snapshot = GitBinary::snapshot(&user, refs);
    let branches: Vec<String> = snapshot.local_branches.iter().map(|b| b.0.clone()).collect();
    assert_eq!(branches, vec!["master".to_string(), "feature/y".to_string()]);
    assert_eq!(
        snapshot.nomad_refs,
        vec![NomadRef {
            user: User::from("user0"),
            host: Host::from("host1"),
            branch: Branch::from("feature/x"),
            ref_: git_ref("c2", "refs/nomad/host1/feature/x"),
        }]
    );
}

#[test]
fn remote_nomad_refs_keep_only_remote_names() {
    let refs = vec![git_ref("c1", "refs/nomad/u/h/b"), git_ref("c2", "refs/heads/master")];
    let listed = GitBinary::remote_nomad_refs(refs);
    assert_eq!(listed.len(), 1);
    assert_eq!(listed[0].user.0, "u");
    assert_eq!(listed[0].host.0, "h");
    assert_eq!(listed[0].branch.0, "b");
}

#[test]
fn prune_plan_without_remote_deletions_has_no_push() {
    let n = NomadRef {
        user: User::from("u"),
        host: Host::from("other"),
        branch: Branch::from("b"),
        ref_: git_ref("c9", "refs/nomad/other/b"),
    };
    let steps = git().prune_nomad_refs(&Remote::from("origin"), vec![PruneFrom::LocalOnly(n)]);
    assert_eq!(steps.len(), 1);
    assert_eq!(steps[0].args, args(&["--git-dir", "/repo/.git", "update-ref", "-d", "refs/nomad/other/b", "c9"]));
    assert_eq!(steps[0].description, "  Delete refs/nomad/other/b (was c9)");
    assert!(git().prune_nomad_refs(&Remote::from("origin"), vec![]).is_empty());
}
