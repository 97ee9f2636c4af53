use git_nomad::filter::Filter;
use git_nomad::git_binary::GitBinary;
use git_nomad::git_ref::GitRef;
use git_nomad::snapshot::Snapshot;
use git_nomad::types::{Branch, Host, NomadRef, Remote, User};
use git_nomad::workflow::{ls, prune, purge, sync, LsPrinter};

#[test]
fn filter_does_filtering() {
    for (filter, expected) in [
        (Filter::All, vec!["foo", "bar"]),
        (Filter::Allow(["foo"].into()), vec!["foo"]),
        (Filter::Deny(["foo"].into()), vec!["bar"]),
    ] {
        let mut got = vec!["foo", "bar"];
        got.retain(|i| filter.contains(i));
        assert_eq!(got, expected);
    }
}

fn git_ref(commit_id: &str, name: &str) -> GitRef {
    GitRef { commit_id: commit_id.to_string(), name: name.to_string() }
}

fn nomad(host: &str, branch: &str, commit_id: &str) -> NomadRef<GitRef> {
    NomadRef {
        user: User::from("user0"),
        host: Host::from(host),
        branch: Branch::from(branch),
        ref_: git_ref(commit_id, &format!("refs/nomad/{}/{}", host, branch)),
    }
}

fn two_host_snapshot() -> Snapshot<GitRef> {
    Snapshot::new(
        &User::from("user0"),
        vec![Branch::from("master")],
        vec![nomad("host1", "master", "c2"), nomad("host0", "master", "c1"), nomad("host0", "gone", "c3")],
    )
}

fn git() -> GitBinary {
    GitBinary { verbosity: None, name: "git".to_string(), git_dir: "/repo/.git".to_string() }
}

fn args(strings: &[&str]) -> Vec<String> {
    strings.iter().map(|s| s.to_string()).collect()
}

#[test]
fn printers_print_hosts_and_refs() {
    let r = git_ref("abc", "refs/nomad/host0/master");
    assert_eq!(LsPrinter::Grouped.print_host(&Host::from("host0")), "host0\n");
    assert_eq!(LsPrinter::Ref.print_host(&Host::from("host0")), "");
    assert_eq!(LsPrinter::Commit.print_host(&Host::from("host0")), "");
    assert_eq!(LsPrinter::Grouped.print_ref(&r), "  refs/nomad/host0/master -> abc\n");
    assert_eq!(LsPrinter::Ref.print_ref(&r), "refs/nomad/host0/master\n");
    assert_eq!(LsPrinter::Commit.print_ref(&r), "abc\n");
}

#[test]
fn ls_groups_sorted_output() {
    let text = ls(LsPrinter::Grouped, two_host_snapshot(), &Filter::All, &Filter::All);
    assert_eq!(
        text,
        "host0\n  refs/nomad/host0/gone -> c3\n  refs/nomad/host0/master -> c1\nhost1\n  refs/nomad/host1/master -> c2\n"
    );
}

#[test]
fn ls_applies_both_filters() {
    let text = ls(
        LsPrinter::Grouped,
        two_host_snapshot(),
        &Filter::Deny(vec![Host::from("host0")]),
        &Filter::Deny(vec![Branch::from("master")]),
    );
    assert_eq!(text, "host1\n");
    let refs = ls(
        LsPrinter::Ref,
        two_host_snapshot(),
        &Filter::All,
        &Filter::Allow(vec![Branch::from("master")]),
    );
    assert_eq!(refs, "refs/nomad/host0/master\nrefs/nomad/host1/master\n");
    let commits = ls(LsPrinter::Commit, two_host_snapshot(), &Filter::All, &Filter::All);
    assert_eq!(commits, "c3\nc1\nc2\n");
}

#[test]
fn sync_deletes_remote_first_then_local() {
    // host0 lost its branch `gone`; the remote no longer lists host1's master.
    let remote_refs = vec![nomad("host0", "master", "c1"), nomad("host0", "gone", "c3")];
    let steps = sync(&git(), two_host_snapshot(), &Host::from("host0"), &Remote::from("origin"), remote_refs);
    let got: Vec<Vec<String>> = steps.into_iter().map(|s| s.args).collect();
    assert_eq!(
        got,
        vec![
            args(&["--git-dir", "/repo/.git", "push", "--no-verify", "origin", ":refs/nomad/user0/host0/gone"]),
            args(&["--git-dir", "/repo/.git", "update-ref", "-d", "refs/nomad/host1/master", "c2"]),
            args(&["--git-dir", "/repo/.git", "update-ref", "-d", "refs/nomad/host0/gone", "c3"]),
        ]
    );
}

#[test]
fn sync_with_nothing_to_prune_runs_nothing() {
    let snapshot = Snapshot::new(
        &User::from("user0"),
        vec![Branch::from("master")],
        vec![nomad("host0", "master", "c1"), nomad("host1", "master", "c2")],
    );
    let remote_refs = vec![nomad("host1", "master", "c2")];
    let steps = sync(&git(), snapshot, &Host::from("host0"), &Remote::from("origin"), remote_refs);
    assert!(steps.is_empty());
}

#[test]
fn purge_allowed_host_only() {
    let steps = purge(&git(), two_host_snapshot(), &Remote::from("origin"), &Filter::Allow(vec![Host::from("host1")]));
    let got: Vec<Vec<String>> = steps.into_iter().map(|s| s.args).collect();
    assert_eq!(
        got,
        vec![
            args(&["--git-dir", "/repo/.git", "push", "--no-verify", "origin", ":refs/nomad/user0/host1/master"]),
            args(&["--git-dir", "/repo/.git", "update-ref", "-d", "refs/nomad/host1/master", "c2"]),
        ]
    );
}

#[test]
fn prune_runs_the_given_policy() {
    let steps = prune(&git(), two_host_snapshot(), &Remote::from("origin"), Snapshot::prune_all);
    let got: Vec<Vec<String>> = steps.into_iter().map(|s| s.args).collect();
    assert_eq!(
        got,
        vec![
            args(&[
                "--git-dir",
                "/repo/.git",
                "push",
                "--no-verify",
                "origin",
                ":refs/nomad/user0/host1/master",
                ":refs/nomad/user0/host0/master",
                ":refs/nomad/user0/host0/gone",
            ]),
            args(&["--git-dir", "/repo/.git", "update-ref", "-d", "refs/nomad/host1/master", "c2"]),
            args(&["--git-dir", "/repo/.git", "update-ref", "-d", "refs/nomad/host0/master", "c1"]),
            args(&["--git-dir", "/repo/.git", "update-ref", "-d", "refs/nomad/host0/gone", "c3"]),
        ]
    );
}
