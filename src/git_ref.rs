//! Parsing of the `<commit_id><delimiter><ref_name>` lines that git prints.
use crate::text::{chars_of, lines, lines_of, split_chars, split_on, string_of, views};
use vstd::prelude::*;

verus! {

/// Information about a specific ref in a git repository, analogous to the information
/// that `git show-ref` produces.
///
/// Callers should use all of it for additional safety (for example, with
/// `git update-ref -d <name> <commit_id>` to delete a ref only if it still points at the
/// expected commit).
#[derive(PartialEq, Eq, Hash, Debug, Clone)]
pub struct GitRef {
    /// The hash representing the git commit ID that the ref points to.
    pub commit_id: String,
    /// The full ref name, like `refs/heads/master`.
    pub name: String,
}

impl GitRef {
    /// A copy of this ref.
    pub fn duplicate(&self) -> (r: GitRef)
        ensures
            r.commit_id@ == self.commit_id@,
            r.name@ == self.name@,
    {
        GitRef { commit_id: self.commit_id.clone(), name: self.name.clone() }
    }
}

/// All the ways a delimited ref line can fail to parse. Each carries the offending line.
#[derive(Debug, Eq, PartialEq, Clone)]
pub enum GitRefParseError {
    MissingName(String),
    MissingCommitId(String),
    TooManyParts(String),
}

/// The fields of a delimited line.
pub open spec fn fields(line: Seq<char>, delimiter: char) -> Seq<Seq<char>> {
    split_on(line, delimiter)
}

/// The last field, which holds the ref name, is empty.
pub open spec fn lacks_name(line: Seq<char>, delimiter: char) -> bool {
    fields(line, delimiter).last().len() == 0
}

/// The name is there, but no non-empty field stands right before it.
pub open spec fn lacks_commit_id(line: Seq<char>, delimiter: char) -> bool {
    let f = fields(line, delimiter);
    !lacks_name(line, delimiter) && (f.len() < 2 || f[f.len() - 2].len() == 0)
}

/// Name and commit id are there, with more fields before them.
pub open spec fn has_extra_parts(line: Seq<char>, delimiter: char) -> bool {
    !lacks_name(line, delimiter) && !lacks_commit_id(line, delimiter) && fields(
        line,
        delimiter,
    ).len() > 2
}

/// Exactly two fields, both non-empty: a commit id and a ref name.
pub open spec fn is_ref_line(line: Seq<char>, delimiter: char) -> bool {
    let f = fields(line, delimiter);
    f.len() == 2 && f[0].len() > 0 && f[1].len() > 0
}

impl GitRefParseError {
    /// The line that failed to parse.
    pub open spec fn line(&self) -> Seq<char> {
        match self {
            GitRefParseError::MissingName(l) => l@,
            GitRefParseError::MissingCommitId(l) => l@,
            GitRefParseError::TooManyParts(l) => l@,
        }
    }

    /// This error is the one that `line` gives.
    pub open spec fn describes(&self, line: Seq<char>, delimiter: char) -> bool {
        &&& self.line() == line
        &&& (self is MissingName <==> lacks_name(line, delimiter))
        &&& (self is MissingCommitId <==> lacks_commit_id(line, delimiter))
        &&& (self is TooManyParts <==> has_extra_parts(line, delimiter))
    }

    /// A human readable description: what is wrong, then the line.
    pub fn message(&self) -> (r: String)
        ensures
            r@ == match self {
                GitRefParseError::MissingName(_) => "Missing name"@,
                GitRefParseError::MissingCommitId(_) => "Missing commit ID"@,
                GitRefParseError::TooManyParts(_) => "Too many parts"@,
            } + ": "@ + self.line(),
    {
        let (tag, line) = match self {
            GitRefParseError::MissingName(line) => ("Missing name", line),
            GitRefParseError::MissingCommitId(line) => ("Missing commit ID", line),
            GitRefParseError::TooManyParts(line) => ("Too many parts", line),
        };
        let mut r = String::from_str(tag);
        r.append(": ");
        r.append(line.as_str());
        r
    }
}

impl GitRef {
    /// Parses a `<commit_id><delimiter><ref_name>` line, a shape that git prints for various
    /// commands.
    pub fn parse_char_delimited_line(line: &str, delimiter: char) -> (r: Result<
        GitRef,
        GitRefParseError,
    >)
        ensures
            r is Ok <==> is_ref_line(line@, delimiter),
            r matches Ok(g) ==> g.commit_id@ == fields(line@, delimiter)[0] && g.name@ == fields(
                line@,
                delimiter,
            )[1],
            r matches Err(e) ==> e.describes(line@, delimiter),
    {
        let v = chars_of(line);
        let parts = split_chars(&v, delimiter);
        let ghost f = fields(line@, delimiter);
        assert(views(parts@) == f);
        let n = parts.len();
        assert(f.len() == n);
        assert(n >= 1) by {
            crate::text::lemma_split_on_nonempty(line@, delimiter);
        }
        assert(parts@[n - 1]@ == f[n - 1]);
        if parts[n - 1].len() == 0 {
            return Err(GitRefParseError::MissingName(String::from_str(line)));
        }
        if n < 2 {
            return Err(GitRefParseError::MissingCommitId(String::from_str(line)));
        }
        assert(parts@[n - 2]@ == f[n - 2]);
        if parts[n - 2].len() == 0 {
            return Err(GitRefParseError::MissingCommitId(String::from_str(line)));
        }
        if n > 2 {
            return Err(GitRefParseError::TooManyParts(String::from_str(line)));
        }
        assert(parts@[0]@ == f[0]);
        assert(parts@[1]@ == f[1]);
        Ok(GitRef { commit_id: string_of(&parts[0]), name: string_of(&parts[1]) })
    }

    /// Parses a single line of `git show-ref` output.
    pub fn parse_show_ref_line(line: &str) -> (r: Result<GitRef, GitRefParseError>)
        ensures
            r is Ok <==> is_ref_line(line@, ' '),
            r matches Ok(g) ==> g.commit_id@ == fields(line@, ' ')[0] && g.name@ == fields(
                line@,
                ' ',
            )[1],
            r matches Err(e) ==> e.describes(line@, ' '),
    {
        Self::parse_char_delimited_line(line, ' ')
    }

    /// Parses a single line of `git ls-remote` output.
    pub fn parse_ls_remote_line(line: &str) -> (r: Result<GitRef, GitRefParseError>)
        ensures
            r is Ok <==> is_ref_line(line@, '\t'),
            r matches Ok(g) ==> g.commit_id@ == fields(line@, '\t')[0] && g.name@ == fields(
                line@,
                '\t',
            )[1],
            r matches Err(e) ==> e.describes(line@, '\t'),
    {
        Self::parse_char_delimited_line(line, '\t')
    }
}

/// `refs` holds, in order, the refs that the lines of `output` describe.
pub open spec fn refs_of_lines(output: Seq<char>, delimiter: char, refs: Seq<GitRef>) -> bool {
    let ls = lines_of(output);
    &&& refs.len() == ls.len()
    &&& forall|i: int|
        0 <= i < ls.len() ==> {
            &&& is_ref_line(#[trigger] ls[i], delimiter)
            &&& refs[i].commit_id@ == fields(ls[i], delimiter)[0]
            &&& refs[i].name@ == fields(ls[i], delimiter)[1]
        }
}

/// Line `i` of `output` is the first that is no ref line, and `e` describes it.
pub open spec fn first_bad_line_at(
    output: Seq<char>,
    delimiter: char,
    e: GitRefParseError,
    i: int,
) -> bool {
    let ls = lines_of(output);
    &&& 0 <= i < ls.len()
    &&& !is_ref_line(ls[i], delimiter)
    &&& e.describes(ls[i], delimiter)
    &&& forall|j: int| 0 <= j < i ==> is_ref_line(#[trigger] ls[j], delimiter)
}

/// `e` describes the first line of `output` that is no ref line.
pub open spec fn first_bad_line(output: Seq<char>, delimiter: char, e: GitRefParseError) -> bool {
    exists|i: int| #[trigger] first_bad_line_at(output, delimiter, e, i)
}

/// Parses every line of some git output as a delimited ref line, stopping at the first
/// line that fails.
pub fn parse_ref_lines(output: &str, delimiter: char) -> (r: Result<Vec<GitRef>, GitRefParseError>)
    ensures
        r is Ok <==> forall|i: int|
            0 <= i < lines_of(output@).len() ==> is_ref_line(#[trigger] lines_of(output@)[i], delimiter),
        r matches Ok(refs) ==> refs_of_lines(output@, delimiter, refs@),
        r matches Err(e) ==> first_bad_line(output@, delimiter, e),
{
    let ls = lines(output);
    let ghost spec_lines = lines_of(output@);
    let mut refs: Vec<GitRef> = Vec::new();
    let mut i: usize = 0;
    while i < ls.len()
        invariant
            spec_lines == lines_of(output@),
            crate::text::string_views(ls@) == spec_lines,
            i <= ls.len(),
            refs.len() == i,
            forall|j: int|
                0 <= j < i ==> {
                    &&& is_ref_line(#[trigger] spec_lines[j], delimiter)
                    &&& refs@[j].commit_id@ == fields(spec_lines[j], delimiter)[0]
                    &&& refs@[j].name@ == fields(spec_lines[j], delimiter)[1]
                },
        decreases ls.len() - i,
    {
        assert(ls@[i as int]@ == spec_lines[i as int]);
        match GitRef::parse_char_delimited_line(ls[i].as_str(), delimiter) {
            Ok(g) => {
                refs.push(g);
            },
            Err(e) => {
                assert(first_bad_line_at(output@, delimiter, e, i as int));
                return Err(e);
            },
        }
        i = i + 1;
    }
    Ok(refs)
}

} // verus!
