use git_nomad::git_ref::{parse_ref_lines, GitRef, GitRefParseError};

#[test]
fn parse() {
    assert_eq!(
        GitRef::parse_show_ref_line("commit_id refs/heads/master"),
        Ok(GitRef {
            commit_id: "commit_id".to_string(),
            name: "refs/heads/master".to_string(),
        })
    );
}

fn parse_error<ErrFactory>(line: &str, err: ErrFactory)
where
    ErrFactory: Fn(String) -> GitRefParseError,
{
    assert_eq!(
        GitRef::parse_show_ref_line(line),
        Err(err(line.to_string()))
    );
}

#[test]
fn parse_missing_name() {
    parse_error("", GitRefParseError::MissingName);
}

#[test]
fn parse_missing_commit1() {
    parse_error("refs/heads/master", GitRefParseError::MissingCommitId);
}

#[test]
fn parse_missing_commit2() {
    parse_error(" refs/heads/master", GitRefParseError::MissingCommitId);
}

#[test]
fn parse_too_many() {
    parse_error(
        "extra commit_id refs/heads/master",
        GitRefParseError::TooManyParts,
    );
}

/// Displaying any [`GitRefParseError`] includes the line it carries.
fn assert_display_contains_str(func: impl Fn(String) -> GitRefParseError) {
    let displayed = func("foo".to_string()).message();
    assert!(displayed.contains("foo"));
}

#[test]
fn display_missing_name() {
    assert_display_contains_str(GitRefParseError::MissingName);
}

#[test]
fn display_missing_commit_id() {
    assert_display_contains_str(GitRefParseError::MissingCommitId);
}

#[test]
fn display_too_many_parts() {
    assert_display_contains_str(GitRefParseError::TooManyParts);
}

#[test]
fn message_names_the_problem() {
    assert_eq!(
        GitRefParseError::TooManyParts("a b c".to_string()).message(),
        "Too many parts: a b c"
    );
}

#[test]
fn parse_ls_remote_line_uses_tabs() {
    assert_eq!(
        GitRef::parse_ls_remote_line("abc\trefs/nomad/u/h/b"),
        Ok(GitRef {
            commit_id: "abc".to_string(),
            name: "refs/nomad/u/h/b".to_string(),
        })
    );
    assert_eq!(
        GitRef::parse_ls_remote_line("abc refs/nomad/u/h/b"),
        Err(GitRefParseError::MissingCommitId(
            "abc refs/nomad/u/h/b".to_string()
        ))
    );
}

#[test]
fn parse_missing_name_after_delimiter() {
    parse_error("commit_id ", GitRefParseError::MissingName);
}

#[test]
fn parse_ref_lines_reads_every_line() {
    let refs = parse_ref_lines("c1 refs/heads/master\r\nc2 refs/nomad/h/b\n", ' ').unwrap();
    assert_eq!(
        refs,
        vec![
            GitRef {
                commit_id: "c1".to_string(),
                name: "refs/heads/master".to_string(),
            },
            GitRef {
                commit_id: "c2".to_string(),
                name: "refs/nomad/h/b".to_string(),
            },
        ]
    );
    assert_eq!(parse_ref_lines("", ' ').unwrap(), vec![]);
}

#[test]
fn parse_ref_lines_stops_at_the_first_bad_line() {
    assert_eq!(
        parse_ref_lines("c1 refs/heads/a\nbad\nx y z\n", ' '),
        Err(GitRefParseError::MissingCommitId("bad".to_string()))
    );
}
