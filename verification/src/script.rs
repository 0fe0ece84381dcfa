//! The script runner's protocol: what a finished backend script means.
//!
//! A script is run with one argument, a JSON document. It reports failure
//! by a non-zero exit status and a reason on its standard error, and success
//! by zero or more lines `key value` on its standard output.

use crate::error::{Error, ErrorKind};
use crate::model::{pairs_of, put, set_parameter, unique_keys, Pairs, Parameter};
use crate::parser::{copy_range, first_words, key_of, value_of_line};
use crate::text::{chars_of, find_char, index_of};
use vstd::prelude::*;

verus! {

/// What the host reports of a finished process. An output stream that is no
/// valid UTF-8 is reported as `None`.
#[derive(Debug)]
pub struct Output {
    /// Whether the exit status was zero.
    pub success: bool,
    pub stdout: Option<String>,
    pub stderr: Option<String>,
}

/// A line without the carriage return that may end it.
pub open spec fn without_return(line: Seq<char>) -> Seq<char> {
    if line.len() > 0 && line.last() == '\r' {
        line.drop_last()
    } else {
        line
    }
}

/// `acc` after one line is read: unchanged by an empty line, extended by
/// the line's first two words, or `None` when a line that is not empty has
/// fewer than two words. A key that comes again replaces the value.
pub open spec fn with_line(acc: Pairs, line: Seq<char>) -> Option<Pairs> {
    if line.len() == 0 {
        Some(acc)
    } else {
        match (key_of(line), value_of_line(line)) {
            (Some(k), Some(v)) => Some(put(acc, k, v)),
            _ => None,
        }
    }
}

/// `acc` after the lines of `s` from position `i` on are read, or `None`
/// when one of them is malformed. A line ends at a line feed or at the end
/// of `s`, and a carriage return before its end is no part of it.
pub open spec fn parameters_in(s: Seq<char>, i: int, acc: Pairs) -> Option<Pairs>
    decreases s.len() - i,
{
    if i < 0 || i >= s.len() {
        Some(acc)
    } else {
        let end = index_of(s, '\n', i);
        if i <= end < s.len() {
            match with_line(acc, without_return(s.subrange(i, end))) {
                Some(next) => parameters_in(s, end + 1, next),
                None => None,
            }
        } else {
            with_line(acc, without_return(s.subrange(i, s.len() as int)))
        }
    }
}

/// The parameters that a script's standard output spells.
pub open spec fn parameters_of_output(s: Seq<char>) -> Option<Pairs> {
    parameters_in(s, 0, Seq::empty())
}

/// The message of a script that failed with `stderr` as its reason.
pub open spec fn failure_text(stderr: Seq<char>) -> Seq<char> {
    "script: failed: "@ + stderr
}

/// What a finished script means, as contracts see it.
pub open spec fn meaning_of(output: Output) -> Result<Pairs, (ErrorKind, Seq<char>)> {
    if !output.success {
        match output.stderr {
            Some(reason) => Err((ErrorKind::BackendScriptFailed, failure_text(reason@))),
            None => Err((ErrorKind::BackendScriptFailed, "script: failed to read stderr"@)),
        }
    } else {
        match output.stdout {
            None => Err((ErrorKind::BackendProtocol, "script: failed to read stdout"@)),
            Some(text) => match parameters_of_output(text@) {
                Some(ps) => Ok(ps),
                None => Err((ErrorKind::BackendProtocol, "script: invalid output"@)),
            },
        }
    }
}

/// The parameters that a script's standard output spells: one per line
/// that is not empty, by the line's first two words. Fails on a line that is
/// not empty and has fewer than two words. No output gives no parameters.
pub fn parse_output(stdout: &str) -> (r: Result<Vec<Parameter>, Error>)
    ensures
        match r {
            Ok(ps) => parameters_of_output(stdout@) == Some(pairs_of(ps@)) && unique_keys(
                pairs_of(ps@),
            ),
            Err(e) => parameters_of_output(stdout@) is None && e.kind
                == ErrorKind::BackendProtocol && e.message@ == "script: invalid output"@,
        },
{
    let chars = chars_of(stdout);
    let mut out: Vec<Parameter> = Vec::new();
    let mut i: usize = 0;
    assert(pairs_of(out@) =~= Seq::<(Seq<char>, Seq<char>)>::empty());
    while i < chars.len()
        invariant
            chars@ == stdout@,
            i <= chars@.len() <= usize::MAX,
            unique_keys(pairs_of(out@)),
            parameters_of_output(stdout@) == parameters_in(chars@, i as int, pairs_of(out@)),
        decreases chars@.len() - i,
    {
        let end = find_char(&chars, '\n', i);
        let mut stop: usize = end;
        if stop > i && chars[stop - 1] == '\r' {
            stop = stop - 1;
        }
        let line = copy_range(&chars, i, stop);
        proof {
            let whole = chars@.subrange(i as int, end as int);
            if whole.len() > 0 && whole.last() == '\r' {
                assert(whole.drop_last() == chars@.subrange(i as int, end - 1));
            }
            assert(line@ == without_return(whole));
        }
        if line.len() > 0 {
            let (key, value) = first_words(&line);
            match key {
                None => {
                    return Err(Error::new(ErrorKind::BackendProtocol, "script: invalid output"));
                },
                Some(k) => match value {
                    None => {
                        return Err(
                            Error::new(ErrorKind::BackendProtocol, "script: invalid output"),
                        );
                    },
                    Some(v) => {
                        set_parameter(&mut out, k, v);
                    },
                },
            }
        }
        if end == chars.len() {
            i = end;
        } else {
            i = end + 1;
        }
    }
    Ok(out)
}

/// What a finished script means: its parameters when it exited with status
/// zero and its output is well formed; else the error, which carries the
/// script's standard error when the status was not zero.
pub fn interpret(output: &Output) -> (r: Result<Vec<Parameter>, Error>)
    ensures
        match r {
            Ok(ps) => meaning_of(*output) == Ok::<Pairs, (ErrorKind, Seq<char>)>(pairs_of(ps@))
                && unique_keys(pairs_of(ps@)),
            Err(e) => meaning_of(*output) == Err::<Pairs, (ErrorKind, Seq<char>)>(
                (e.kind, e.message@),
            ),
        },
{
    if !output.success {
        match &output.stderr {
            Some(reason) => Err(
                Error::with_detail(
                    ErrorKind::BackendScriptFailed,
                    "script: failed: ",
                    reason.as_str(),
                ),
            ),
            None => Err(Error::new(ErrorKind::BackendScriptFailed, "script: failed to read stderr")),
        }
    } else {
        match &output.stdout {
            None => Err(Error::new(ErrorKind::BackendProtocol, "script: failed to read stdout")),
            Some(text) => parse_output(text.as_str()),
        }
    }
}

} // verus!
