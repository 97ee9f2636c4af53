use git_nomad::snapshot::{PruneFrom, Snapshot};
use git_nomad::types::{Branch, Host, NomadRef, RemoteNomadRefSet, User};
use git_nomad::filter::Filter;

fn snapshot(user: &User, local_branches: impl IntoIterator<Item = &'static str>) -> Snapshot<()> {
    Snapshot::new(
        user,
        local_branches.into_iter().map(Branch::from).collect(),
        vec![
            NomadRef {
                user: user.clone(),
                host: Host::from("host0"),
                branch: Branch::from("branch0"),
                ref_: (),
            },
            NomadRef {
                user: user.clone(),
                host: Host::from("host0"),
                branch: Branch::from("branch1"),
                ref_: (),
            },
            NomadRef {
                user: user.clone(),
                host: Host::from("host1"),
                branch: Branch::from("branch1"),
                ref_: (),
            },
        ],
    )
}

fn remote_nomad_refs(
    collection: impl IntoIterator<Item = (&'static str, &'static str, &'static str)>,
) -> RemoteNomadRefSet {
    RemoteNomadRefSet::from_triples(
        collection
            .into_iter()
            .map(|(user, host, branch)| (User::from(user), Host::from(host), Branch::from(branch)))
            .collect(),
    )
}

fn nomad_ref(host: &str, branch: &str) -> NomadRef<()> {
    NomadRef {
        user: User::from("user0"),
        host: Host::from(host),
        branch: Branch::from(branch),
        ref_: (),
    }
}

/// Local branches without nomad refs, and nomad refs of other hosts that the remote still
/// has: nothing is pruned.
#[test]
fn snapshot_snapshot_prune_does_nothing0() {
    let user = &User::from("user0");
    let prune = snapshot(user, ["branch0", "branch1"]).prune_deleted_branches(
        &Host::from("host0"),
        &remote_nomad_refs([("user0", "host1", "branch1")]),
    );

    assert_eq!(prune, Vec::new());
}

/// Local branches with nomad refs, and nomad refs of other hosts that the remote still has:
/// nothing is pruned.
#[test]
fn snapshot_snapshot_prune_does_nothing1() {
    let user = &User::from("user0");
    let prune = snapshot(user, ["branch0", "branch1"]).prune_deleted_branches(
        &Host::from("host0"),
        &remote_nomad_refs([
            ("user0", "host0", "branch0"),
            ("user0", "host0", "branch1"),
            ("user0", "host1", "branch1"),
        ]),
    );

    assert_eq!(prune, Vec::new());
}

/// A local branch is gone: its nomad ref is removed locally and on the remote.
#[test]
fn snapshot_snapshot_prune_removes_local_missing_branches() {
    let user = &User::from("user0");
    let prune = snapshot(user, ["branch0"]).prune_deleted_branches(
        &Host::from("host0"),
        &remote_nomad_refs([
            ("user0", "host0", "branch0"),
            ("user0", "host0", "branch1"),
            ("user0", "host1", "branch1"),
        ]),
    );

    assert_eq!(
        prune,
        vec![PruneFrom::LocalAndRemote(NomadRef {
            user: User::from("user0"),
            host: Host::from("host0"),
            branch: Branch::from("branch1"),
            ref_: (),
        })]
    );
}

/// The remote no longer has a nomad ref of another host: the local copy is removed, locally
/// only.
#[test]
fn snapshot_snapshot_prune_removes_remote_missing_branches() {
    let user = &User::from("user0");
    let prune = snapshot(user, ["branch0", "branch1"]).prune_deleted_branches(
        &Host::from("host0"),
        &remote_nomad_refs([("user0", "host0", "branch0"), ("user0", "host0", "branch1")]),
    );

    assert_eq!(
        prune,
        vec![PruneFrom::LocalOnly(NomadRef {
            user: User::from("user0"),
            host: Host::from("host1"),
            branch: Branch::from("branch1"),
            ref_: (),
        })]
    );
}

/// [`Snapshot::prune_all`] removes all branches.
#[test]
fn snapshot_snapshot_prune_all() {
    let user = &User::from("user0");
    let prune = snapshot(user, ["branch0", "branch1"]).prune_all();
    assert_eq!(
        prune,
        vec![
            PruneFrom::LocalAndRemote(nomad_ref("host0", "branch0")),
            PruneFrom::LocalAndRemote(nomad_ref("host0", "branch1")),
            PruneFrom::LocalAndRemote(nomad_ref("host1", "branch1")),
        ],
    );
}

/// [`Snapshot::prune_all_by_hosts`] removes only the branches of the given hosts.
#[test]
fn snapshot_snapshot_prune_hosts() {
    let user = &User::from("user0");
    let prune = snapshot(user, ["branch0", "branch1"]).prune_all_by_hosts(&vec![Host::from("host0")]);
    assert_eq!(
        prune,
        vec![
            PruneFrom::LocalAndRemote(nomad_ref("host0", "branch0")),
            PruneFrom::LocalAndRemote(nomad_ref("host0", "branch1")),
        ],
    );
}

#[test]
fn prune_by_hosts_allow_keeps_only_listed_hosts() {
    let user = &User::from("user0");
    let prune = snapshot(user, ["branch0"]).prune_by_hosts(&Filter::Allow(vec![Host::from("host0")]));
    assert_eq!(
        prune,
        vec![
            PruneFrom::LocalAndRemote(nomad_ref("host0", "branch0")),
            PruneFrom::LocalAndRemote(nomad_ref("host0", "branch1")),
        ],
    );
}

#[test]
fn prune_by_hosts_deny_and_all() {
    let user = &User::from("user0");
    let denied = snapshot(user, ["branch0"]).prune_by_hosts(&Filter::Deny(vec![Host::from("host0")]));
    assert_eq!(denied, vec![PruneFrom::LocalAndRemote(nomad_ref("host1", "branch1"))]);
    let all = snapshot(user, ["branch0"]).prune_by_hosts(&Filter::All);
    assert_eq!(all.len(), 3);
}

#[test]
fn prune_deleted_branches_both_kinds_in_order() {
    let user = &User::from("user0");
    let prune = snapshot(user, ["branch0"]).prune_deleted_branches(&Host::from("host0"), &remote_nomad_refs([]));
    assert_eq!(
        prune,
        vec![
            PruneFrom::LocalAndRemote(nomad_ref("host0", "branch1")),
            PruneFrom::LocalOnly(nomad_ref("host1", "branch1")),
        ]
    );
}

#[test]
fn remote_set_ignores_the_payload_and_compares_all_three_names() {
    let set = remote_nomad_refs([("user0", "host1", "branch1")]);
    assert!(set.contains(&NomadRef { ref_: 7u8, ..nomad_ref_with("user0", "host1", "branch1") }));
    assert!(!set.contains(&nomad_ref_with("user1", "host1", "branch1")));
    assert!(!set.contains(&nomad_ref_with("user0", "host0", "branch1")));
    assert!(!set.contains(&nomad_ref_with("user0", "host1", "branch0")));
}

fn nomad_ref_with(user: &str, host: &str, branch: &str) -> NomadRef<u8> {
    NomadRef { user: User::from(user), host: Host::from(host), branch: Branch::from(branch), ref_: 0 }
}

#[test]
fn sorted_hosts_and_branches_groups_and_orders() {
    let user = &User::from("user0");
    let refs = vec![
        NomadRef { ref_: 1, ..nomad_ref_with("user0", "zeta", "b") },
        NomadRef { ref_: 2, ..nomad_ref_with("user0", "alpha", "z") },
        NomadRef { ref_: 3, ..nomad_ref_with("user0", "zeta", "a") },
        NomadRef { ref_: 4, ..nomad_ref_with("user0", "alpha", "feature/x") },
        NomadRef { ref_: 5, ..nomad_ref_with("user0", "alph", "m") },
    ];
    let groups = Snapshot::new(user, vec![], refs).sorted_hosts_and_branches();
    let shape: Vec<(String, Vec<(String, u8)>)> = groups
        .into_iter()
        .map(|(h, refs)| (h.0, refs.into_iter().map(|r| (r.branch.0, r.ref_)).collect()))
        .collect();
    assert_eq!(
        shape,
        vec![
            ("alph".to_string(), vec![("m".to_string(), 5)]),
            ("alpha".to_string(), vec![("feature/x".to_string(), 4), ("z".to_string(), 2)]),
            ("zeta".to_string(), vec![("a".to_string(), 3), ("b".to_string(), 1)]),
        ]
    );
}

#[test]
fn sorted_hosts_and_branches_of_nothing() {
    let user = &User::from("user0");
    let groups = Snapshot::<()>::new(user, vec![], vec![]).sorted_hosts_and_branches();
    assert!(groups.is_empty());
}
