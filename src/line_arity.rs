//! Reading the line based output of `git` sub-commands that print at most one value.
use crate::text::{lines, lines_of, string_views};
use vstd::prelude::*;

verus! {

/// How many lines some command output holds.
#[derive(Debug, Clone)]
pub enum LineArity {
    /// The command produced no lines, or a single empty one.
    Zero(),
    /// The command produced exactly one non-empty line.
    One(String),
    /// The command produced two or more lines; the whole output is kept.
    Many(String),
}

/// The output held a number of lines that the caller did not expect.
#[derive(Debug, Clone)]
pub enum LineArityError {
    /// One line was expected.
    ExpectedOne(LineArity),
    /// At most one line was expected; the whole output is kept.
    ExpectedZeroOrOne(String),
}

impl LineArity {
    /// This value classifies `output`.
    pub open spec fn classifies(&self, output: Seq<char>) -> bool {
        let ls = lines_of(output);
        match self {
            LineArity::Zero() => ls.len() == 0 || (ls.len() == 1 && ls[0].len() == 0),
            LineArity::One(line) => ls.len() == 1 && ls[0].len() > 0 && line@ == ls[0],
            LineArity::Many(all) => ls.len() >= 2 && all@ == output,
        }
    }

    /// Classifies command output by its number of lines. A single empty line counts as none.
    pub fn from_output(output: String) -> (r: LineArity)
        ensures
            r.classifies(output@),
    {
        let mut ls = lines(output.as_str());
        assert(string_views(ls@) == lines_of(output@));
        if ls.len() == 0 {
            LineArity::Zero()
        } else if ls.len() == 1 {
            assert(ls@[0]@ == lines_of(output@)[0]);
            let line = ls.pop().unwrap();
            if line.as_str().is_empty() {
                LineArity::Zero()
            } else {
                LineArity::One(line)
            }
        } else {
            LineArity::Many(output)
        }
    }

    /// The one line, where one was expected.
    pub fn one(self) -> (r: Result<String, LineArityError>)
        ensures
            self matches LineArity::One(line) ==> r == Ok::<String, LineArityError>(line),
            !(self is One) ==> r == Err::<String, LineArityError>(LineArityError::ExpectedOne(self)),
    {
        match self {
            LineArity::One(line) => Ok(line),
            _ => Err(LineArityError::ExpectedOne(self)),
        }
    }

    /// The line if there is one, where zero or one were expected.
    pub fn zero_or_one(self) -> (r: Result<Option<String>, LineArityError>)
        ensures
            self is Zero ==> r == Ok::<Option<String>, LineArityError>(None),
            self matches LineArity::One(line) ==> r == Ok::<Option<String>, LineArityError>(
                Some(line),
            ),
            self matches LineArity::Many(all) ==> r == Err::<Option<String>, LineArityError>(
                LineArityError::ExpectedZeroOrOne(all),
            ),
    {
        match self {
            LineArity::Zero() => Ok(None),
            LineArity::One(line) => Ok(Some(line)),
            LineArity::Many(all) => Err(LineArityError::ExpectedZeroOrOne(all)),
        }
    }
}

impl From<String> for LineArity {
    /// Classifies command output, as [`LineArity::from_output`] does.
    fn from(output: String) -> (r: LineArity) {
        LineArity::from_output(output)
    }
}

impl vstd::std_specs::convert::FromSpecImpl<String> for LineArity {
    open spec fn obeys_from_spec() -> bool {
        false
    }

    open spec fn from_spec(output: String) -> LineArity {
        vstd::pervasive::arbitrary()
    }
}

} // verus!
