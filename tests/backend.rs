use git_nomad::snapshot::{PruneFrom, Snapshot};
use git_nomad::types::{Branch, Host, NomadRef, RemoteNomadRefSet, User};

fn snapshot(user: &User, local_branches: impl IntoIterator<Item = &'static str>) -> Snapshot<()> {
    Snapshot::new(
        user,
        local_branches.into_iter().map(Branch::from).collect(),
        vec![
            NomadRef {
                user: user.clone(),
                host: Host::from("host0"),
                branch: Branch::from("branch0"),
                ref_: (),
            },
            NomadRef {
                user: user.clone(),
                host: Host::from("host0"),
                branch: Branch::from("branch1"),
                ref_: (),
            },
            NomadRef {
                user: user.clone(),
                host: Host::from("host1"),
                branch: Branch::from("branch1"),
                ref_: (),
            },
        ],
    )
}

fn remote_nomad_refs(
    collection: impl IntoIterator<Item = (&'static str, &'static str, &'static str)>,
) -> RemoteNomadRefSet {
    RemoteNomadRefSet::from_triples(
        collection
            .into_iter()
            .map(|(user, host, branch)| (User::from(user), Host::from(host), Branch::from(branch)))
            .collect(),
    )
}

fn nomad_ref(host: &str, branch: &str) -> NomadRef<()> {
    NomadRef {
        user: User::from("user0"),
        host: Host::from(host),
        branch: Branch::from(branch),
        ref_: (),
    }
}

/// Local branches without nomad refs, and nomad refs of other hosts that the remote still
/// has: nothing is pruned.
#[test]
fn backend_snapshot_prune_does_nothing0() {
    let user = &User::from("user0");
    let prune = snapshot(user, ["branch0", "branch1"]).prune_deleted_branches(
        &Host::from("host0"),
        &remote_nomad_refs([("user0", "host1", "branch1")]),
    );

    assert_eq!(prune, Vec::new());
}

/// Local branches with nomad refs, and nomad refs of other hosts that the remote still has:
/// nothing is pruned.
#[test]
fn backend_snapshot_prune_does_nothing1() {
    let user = &User::from("user0");
    let prune = snapshot(user, ["branch0", "branch1"]).prune_deleted_branches(
        &Host::from("host0"),
        &remote_nomad_refs([
            ("user0", "host0", "branch0"),
            ("user0", "host0", "branch1"),
            ("user0", "host1", "branch1"),
        ]),
    );

    assert_eq!(prune, Vec::new());
}

/// A local branch is gone: its nomad ref is removed locally and on the remote.
#[test]
fn backend_snapshot_prune_removes_local_missing_branches() {
    let user = &User::from("user0");
    let prune = snapshot(user, ["branch0"]).prune_deleted_branches(
        &Host::from("host0"),
        &remote_nomad_refs([
            ("user0", "host0", "branch0"),
            ("user0", "host0", "branch1"),
            ("user0", "host1", "branch1"),
        ]),
    );

    assert_eq!(
        prune,
        vec![PruneFrom::LocalAndRemote(NomadRef {
            user: User::from("user0"),
            host: Host::from("host0"),
            branch: Branch::from("branch1"),
            ref_: (),
        })]
    );
}

/// The remote no longer has a nomad ref of another host: the local copy is removed, locally
/// only.
#[test]
fn backend_snapshot_prune_removes_remote_missing_branches() {
    let user = &User::from("user0");
    let prune = snapshot(user, ["branch0", "branch1"]).prune_deleted_branches(
        &Host::from("host0"),
        &remote_nomad_refs([("user0", "host0", "branch0"), ("user0", "host0", "branch1")]),
    );

    assert_eq!(
        prune,
        vec![PruneFrom::LocalOnly(NomadRef {
            user: User::from("user0"),
            host: Host::from("host1"),
            branch: Branch::from("branch1"),
            ref_: (),
        })]
    );
}

/// [`Snapshot::prune_all`] removes all branches.
#[test]
fn backend_snapshot_prune_all() {
    let user = &User::from("user0");
    let prune = snapshot(user, ["branch0", "branch1"]).prune_all();
    assert_eq!(
        prune,
        vec![
            PruneFrom::LocalAndRemote(nomad_ref("host0", "branch0")),
            PruneFrom::LocalAndRemote(nomad_ref("host0", "branch1")),
            PruneFrom::LocalAndRemote(nomad_ref("host1", "branch1")),
        ],
    );
}

/// [`Snapshot::prune_all_by_hosts`] removes only the branches of the given hosts.
#[test]
fn backend_snapshot_prune_hosts() {
    let user = &User::from("user0");
    let prune = snapshot(user, ["branch0", "branch1"]).prune_all_by_hosts(&vec![Host::from("host0")]);
    assert_eq!(
        prune,
        vec![
            PruneFrom::LocalAndRemote(nomad_ref("host0", "branch0")),
            PruneFrom::LocalAndRemote(nomad_ref("host0", "branch1")),
        ],
    );
}
