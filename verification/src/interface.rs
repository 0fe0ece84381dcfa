//! What the front ends share: splitting a received line into the command
//! name and its payload.

use crate::parser::copy_range;
use crate::text::{
    chars_of, find_char, index_of, remove_char, string_of, trim_chars, trimmed, without_char,
};
use vstd::prelude::*;

verus! {

/// `s` without white space at both ends and without any carriage return or
/// line feed.
pub open spec fn cleaned(s: Seq<char>) -> Seq<char> {
    without_char(without_char(trimmed(s), '\r'), '\n')
}

/// The command name that `s` spells: what stands before the first space of
/// the cleaned line, or the whole of it when it holds no space.
pub open spec fn command_name_of(s: Seq<char>) -> Seq<char> {
    let t = cleaned(s);
    let space = index_of(t, ' ', 0);
    if space < t.len() {
        trimmed(t.subrange(0, space))
    } else {
        t
    }
}

/// The payload that `s` spells: what follows the first space of the
/// cleaned line, without white space at both ends; empty when it holds no
/// space.
pub open spec fn payload_of(s: Seq<char>) -> Seq<char> {
    let t = cleaned(s);
    let space = index_of(t, ' ', 0);
    if space < t.len() {
        trimmed(t.subrange(space, t.len() as int))
    } else {
        Seq::empty()
    }
}

/// Splits a line into the command name and the payload, which is either a
/// name that identifies an object or a JSON document that describes one.
pub fn parse_command(s: String) -> (r: (String, String))
    ensures
        r.0@ == command_name_of(s@),
        r.1@ == payload_of(s@),
{
    let raw = chars_of(s.as_str());
    let t0 = trim_chars(&raw);
    let t1 = remove_char(&t0, '\r');
    let t = remove_char(&t1, '\n');
    let space = find_char(&t, ' ', 0);
    if space < t.len() {
        let left = copy_range(&t, 0, space);
        let right = copy_range(&t, space, t.len());
        let command = trim_chars(&left);
        let payload = trim_chars(&right);
        (string_of(&command), string_of(&payload))
    } else {
        (string_of(&t), String::new())
    }
}

/// The command that the path of an HTTP request names: what follows its
/// first character, the `/`; none for a path of fewer than two characters.
pub open spec fn path_command_of(path: Seq<char>) -> Option<Seq<char>> {
    if path.len() < 2 {
        None
    } else {
        Some(path.subrange(1, path.len() as int))
    }
}

/// The command that the path of an HTTP request names, if it names one.
pub fn command_of_path(path: &str) -> (r: Option<String>)
    ensures
        match r {
            Some(command) => path_command_of(path@) == Some(command@),
            None => path_command_of(path@) is None,
        },
{
    let chars = chars_of(path);
    if chars.len() < 2 {
        None
    } else {
        Some(string_of(&copy_range(&chars, 1, chars.len())))
    }
}

} // verus!
