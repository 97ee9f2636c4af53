use git_nomad::git_ref::GitRef;
use git_nomad::namespace::{
    config_key, fetch_refspec, list_refspec, local_ref_name, parse_local_ref, parse_remote_ref,
    push_refspec, remote_ref_name,
};
use git_nomad::types::{Branch, Host, NomadRef, User};

const USER: &str = "user0";
const HOST: &str = "host0";
const BRANCH: &str = "branch0";

#[test]
fn test_to_and_from_local_ref() {
    let local_ref_name = NomadRef {
        user: User::from(USER),
        host: Host::from(HOST),
        branch: Branch::from(BRANCH),
        ref_: (),
    }
    .to_git_local_ref();

    let local_git_ref = GitRef {
        commit_id: "some_commit_id".to_string(),
        name: local_ref_name,
    };

    let user = &User::from(USER);
    let nomad_ref = NomadRef::<GitRef>::from_git_local_ref(user, local_git_ref).unwrap();

    assert_eq!(&nomad_ref.user.0, USER);
    assert_eq!(&nomad_ref.host.0, HOST);
    assert_eq!(&nomad_ref.branch.0, BRANCH);
}

#[test]
fn test_from_local_ref_with_slashes() {
    for segment_count in 1..3 {
        let segments: Vec<_> = std::iter::repeat(BRANCH).take(segment_count).collect();
        let branch = segments.join("/");

        let local_ref_name = NomadRef {
            user: User::from(USER),
            host: Host::from(HOST),
            branch: Branch::from(branch.clone()),
            ref_: (),
        }
        .to_git_local_ref();

        let local_git_ref = GitRef {
            commit_id: "some_commit_id".to_string(),
            name: local_ref_name,
        };

        let user = &User::from(USER);
        let nomad_ref = NomadRef::<GitRef>::from_git_local_ref(user, local_git_ref).unwrap();

        assert_eq!(&nomad_ref.user.0, USER);
        assert_eq!(&nomad_ref.host.0, HOST);
        assert_eq!(nomad_ref.branch.0, std::borrow::Cow::from(branch));
    }
}

#[test]
fn test_to_and_from_remote_ref() {
    let remote_ref_name = NomadRef {
        user: User::from(USER),
        host: Host::from(HOST),
        branch: Branch::from(BRANCH),
        ref_: (),
    }
    .to_git_remote_ref();

    let remote_git_ref = GitRef {
        commit_id: "some_commit_id".to_string(),
        name: remote_ref_name,
    };

    let nomad_ref = NomadRef::<GitRef>::from_git_remote_ref(remote_git_ref).unwrap();

    assert_eq!(&nomad_ref.user.0, USER);
    assert_eq!(&nomad_ref.host.0, HOST);
    assert_eq!(&nomad_ref.branch.0, BRANCH);
}

#[test]
fn test_from_remote_ref_wrong_prefix() {
    let remote_git_ref = GitRef {
        commit_id: "some_commit_id".to_string(),
        name: "refs/something/user/host/branch".to_string(),
    };

    let parsed = NomadRef::<GitRef>::from_git_remote_ref(remote_git_ref);
    assert!(parsed.is_err());
}

#[test]
fn ref_names_have_the_wire_format() {
    let user = User::from("rraval");
    let host = Host::from("apollo");
    let branch = Branch::from("feature/x");
    assert_eq!(local_ref_name(&host, &branch), "refs/nomad/apollo/feature/x");
    assert_eq!(
        remote_ref_name(&user, &host, &branch),
        "refs/nomad/rraval/apollo/feature/x"
    );
}

#[test]
fn local_round_trip_with_slashes() {
    for branch in ["master", "feature/x", "a/b/c", "trailing/", ""] {
        let host = Host::from("host0");
        let name = local_ref_name(&host, &Branch::from(branch));
        let (h, b) = parse_local_ref(&name).unwrap();
        assert_eq!(h.0, "host0");
        assert_eq!(b.0, branch);
    }
}

#[test]
fn remote_round_trip_with_slashes() {
    for branch in ["master", "feature/x", "a/b/c"] {
        let name = remote_ref_name(&User::from("u"), &Host::from("h"), &Branch::from(branch));
        let (u, h, b) = parse_remote_ref(&name).unwrap();
        assert_eq!(u.0, "u");
        assert_eq!(h.0, "h");
        assert_eq!(b.0, branch);
    }
}

#[test]
fn remote_parse_rejects_other_prefix() {
    assert!(parse_remote_ref("refs/something-else/u/h/b").is_none());
}

#[test]
fn parse_rejects_names_outside_the_scheme() {
    assert!(parse_local_ref("refs/heads/master").is_none());
    assert!(parse_local_ref("refs/nomad/host-only").is_none());
    assert!(parse_local_ref("refs/nomad").is_none());
    assert!(parse_remote_ref("refs/nomad/user/host-only").is_none());
    assert!(parse_remote_ref("refs/nomad/user").is_none());
    assert!(parse_remote_ref("nomad/u/h/b").is_none());
}

#[test]
fn local_parse_splits_at_the_first_slash_after_the_host() {
    let (h, b) = parse_local_ref("refs/nomad/h/x/y").unwrap();
    assert_eq!(h.0, "h");
    assert_eq!(b.0, "x/y");
}

#[test]
fn refspecs() {
    let user = User::from("rraval");
    let host = Host::from("boreas");
    assert_eq!(config_key("user"), "nomad.user");
    assert_eq!(list_refspec(&user), "refs/nomad/rraval/*");
    assert_eq!(fetch_refspec(&user), "+refs/nomad/rraval/*:refs/nomad/*");
    assert_eq!(
        push_refspec(&user, &host),
        "+refs/heads/*:refs/nomad/rraval/boreas/*"
    );
}
