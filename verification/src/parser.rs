//! The console's command syntax: a command name, then key/value parameters
//! separated by `, `.

use crate::error::{Error, ErrorKind};
use crate::model::{pairs_of, put, set_parameter, unique_keys, Pairs, Parameter};
use crate::text::{
    chars_of, find_text, matches_at, occurs_at, find_from, skip_letters, skip_space, skip_spaces,
    skip_word, string_of, string_of_range, trim_chars, trimmed,
};
use vstd::prelude::*;

verus! {

/// The first word of `line`, if it has one.
pub open spec fn key_of(line: Seq<char>) -> Option<Seq<char>> {
    let a = skip_space(line, 0);
    let b = skip_word(line, a);
    if a < line.len() {
        Some(line.subrange(a, b))
    } else {
        None
    }
}

/// The second word of `line`, if it has one.
pub open spec fn value_of_line(line: Seq<char>) -> Option<Seq<char>> {
    let a = skip_space(line, 0);
    let b = skip_word(line, a);
    let c = skip_space(line, b);
    let d = skip_word(line, c);
    if c < line.len() {
        Some(line.subrange(c, d))
    } else {
        None
    }
}

/// The characters of an optional string.
pub open spec fn text_of(o: Option<String>) -> Option<Seq<char>> {
    match o {
        Some(s) => Some(s@),
        None => None,
    }
}

/// By how much a search moves on after a separator.
pub open spec fn stride(sep: Seq<char>) -> int {
    if sep.len() > 0 {
        sep.len() as int
    } else {
        1
    }
}

/// The pieces of `s` between the occurrences of `sep`, taken from left to
/// right without overlap, for the part of `s` from `i` on, where the piece
/// that holds `i` starts at `start`.
pub open spec fn split_from(s: Seq<char>, sep: Seq<char>, start: int, i: int) -> Seq<Seq<char>>
    decreases s.len() - i,
{
    if i >= s.len() {
        seq![s.subrange(start, s.len() as int)]
    } else if occurs_at(s, sep, i) {
        seq![s.subrange(start, i)] + split_from(s, sep, i + stride(sep), i + stride(sep))
    } else {
        split_from(s, sep, start, i + 1)
    }
}

/// The pieces of `s` between the occurrences of `sep`.
pub open spec fn split(s: Seq<char>, sep: Seq<char>) -> Seq<Seq<char>> {
    split_from(s, sep, 0, 0)
}

/// The parameters that `pieces` spell, one per piece, or the message of the
/// first piece that lacks its key or its value.
pub open spec fn parameters_from(pieces: Seq<Seq<char>>) -> Result<Pairs, Seq<char>>
    decreases pieces.len(),
{
    if pieces.len() == 0 {
        Ok(Seq::empty())
    } else {
        match parameters_from(pieces.drop_last()) {
            Err(m) => Err(m),
            Ok(ps) => match (key_of(pieces.last()), value_of_line(pieces.last())) {
                (None, _) => Err("Key not found"@),
                (Some(_), None) => Err("Value not found"@),
                (Some(k), Some(v)) => Ok(put(ps, k, v)),
            },
        }
    }
}

/// The command that `s` spells: its name and its parameters, or the message
/// that says why it spells none.
pub open spec fn command_of(s: Seq<char>) -> Result<(Seq<char>, Pairs), Seq<char>> {
    let t = trimmed(s);
    if t.len() == 0 {
        Err("Empty command"@)
    } else if find_from(t, ", "@, 0) >= t.len() {
        Ok((t, Seq::empty()))
    } else {
        let pieces = split(t, ", "@);
        match parameters_from(pieces.drop_first()) {
            Ok(ps) => Ok((pieces[0], ps)),
            Err(m) => Err(m),
        }
    }
}

/// The pieces of a list, as contracts see them.
pub open spec fn pieces_of(v: Seq<Vec<char>>) -> Seq<Seq<char>> {
    Seq::new(v.len(), |i: int| v[i]@)
}

/// The first and the second word of `v`.
pub fn first_words(v: &Vec<char>) -> (r: (Option<String>, Option<String>))
    ensures
        text_of(r.0) == key_of(v@),
        text_of(r.1) == value_of_line(v@),
{
    let a = skip_spaces(v, 0);
    let b = skip_letters(v, a);
    let c = skip_spaces(v, b);
    let d = skip_letters(v, c);
    let key = if a < v.len() {
        Some(string_of_range(v, a, b))
    } else {
        None
    };
    let value = if c < v.len() {
        Some(string_of_range(v, c, d))
    } else {
        None
    };
    (key, value)
}

/// The pieces of `v` between the occurrences of `sep`.
pub fn split_text(v: &Vec<char>, sep: &Vec<char>) -> (r: Vec<Vec<char>>)
    ensures
        pieces_of(r@) == split(v@, sep@),
{
    let step: usize = if sep.len() > 0 {
        sep.len()
    } else {
        1
    };
    let total = v.len();
    let mut out: Vec<Vec<char>> = Vec::new();
    let mut start: usize = 0;
    let mut i: usize = 0;
    assert(pieces_of(out@) =~= Seq::<Seq<char>>::empty());
    while i < total
        invariant
            total == v@.len(),
            start <= i <= v@.len() <= usize::MAX,
            step == stride(sep@),
            split(v@, sep@) == pieces_of(out@) + split_from(v@, sep@, start as int, i as int),
        decreases v@.len() - i,
    {
        if matches_at(v, sep, i) {
            let piece = copy_range(v, start, i);
            let ghost before = pieces_of(out@);
            out.push(piece);
            assert(pieces_of(out@) =~= before.push(v@.subrange(start as int, i as int)));
            i += step;
            start = i;
        } else {
            i += 1;
        }
    }
    let piece = copy_range(v, start, v.len());
    let ghost before = pieces_of(out@);
    out.push(piece);
    assert(pieces_of(out@) =~= before.push(v@.subrange(start as int, v@.len() as int)));
    out
}

/// The characters of `v` from `from` up to `to`.
pub fn copy_range(v: &Vec<char>, from: usize, to: usize) -> (r: Vec<char>)
    requires
        from <= to <= v@.len(),
    ensures
        r@ == v@.subrange(from as int, to as int),
{
    let mut out: Vec<char> = Vec::new();
    let mut i: usize = from;
    while i < to
        invariant
            from <= i <= to <= v@.len(),
            out@ == v@.subrange(from as int, i as int),
        decreases to - i,
    {
        out.push(v[i]);
        i += 1;
    }
    out
}

impl Parameter {
    /// The parameter that `s` spells: its first word is the key, its second
    /// the value; further words are ignored. Fails when `s` has fewer than
    /// two words.
    pub fn from_str(s: &str) -> (r: Result<Parameter, Error>)
        ensures
            match r {
                Ok(p) => key_of(s@) == Some(p.key@) && value_of_line(s@) == Some(p.value@),
                Err(e) => e.kind == ErrorKind::Validation && match key_of(s@) {
                    None => e.message@ == "Key not found"@,
                    Some(_) => value_of_line(s@) is None && e.message@ == "Value not found"@,
                },
            },
    {
        let chars = chars_of(s);
        let (key, value) = first_words(&chars);
        match key {
            None => Err(Error::new(ErrorKind::Validation, "Key not found")),
            Some(k) => match value {
                None => Err(Error::new(ErrorKind::Validation, "Value not found")),
                Some(v) => Ok(Parameter { key: k, value: v }),
            },
        }
    }
}

/// An order to the daemon in the console's syntax.
#[derive(Debug)]
pub struct Command {
    /// The name of the command.
    pub name: String,
    /// Its parameters, at most one per key, in the order in which the keys
    /// first appear.
    pub parameters: Vec<Parameter>,
}

impl Command {
    /// The command that `s` spells, white space at both ends aside. Without
    /// `, ` the whole of it is the name. Else the name is what stands before
    /// the first `, `, and each further piece gives a parameter by its first
    /// two words; a key that comes again replaces the value. Fails on an
    /// empty command and on a piece with fewer than two words.
    pub fn from_str(s: &str) -> (r: Result<Command, Error>)
        ensures
            match r {
                Ok(c) => command_of(s@) == Ok::<(Seq<char>, Pairs), Seq<char>>(
                    (c.name@, pairs_of(c.parameters@)),
                ) && unique_keys(pairs_of(c.parameters@)),
                Err(e) => e.kind == ErrorKind::Validation && command_of(s@) == Err::<
                    (Seq<char>, Pairs),
                    Seq<char>,
                >(e.message@),
            },
    {
        let raw = chars_of(s);
        let chars = trim_chars(&raw);
        if chars.len() == 0 {
            return Err(Error::new(ErrorKind::Validation, "Empty command"));
        }
        let sep = chars_of(", ");
        let first = find_text(&chars, &sep, 0);
        if first >= chars.len() {
            let parameters: Vec<Parameter> = Vec::new();
            assert(pairs_of(parameters@) =~= Seq::<(Seq<char>, Seq<char>)>::empty());
            return Ok(Command { name: string_of(&chars), parameters });
        }
        let pieces = split_text(&chars, &sep);
        proof {
            lemma_split_nonempty(chars@, sep@, 0, 0);
        }
        let name = string_of(&pieces[0]);
        let mut parameters: Vec<Parameter> = Vec::new();
        let ghost rest = pieces_of(pieces@).drop_first();
        let mut i: usize = 1;
        assert(rest.subrange(0, 0) =~= Seq::<Seq<char>>::empty());
        assert(pairs_of(parameters@) =~= Seq::<(Seq<char>, Seq<char>)>::empty());
        while i < pieces.len()
            invariant
                1 <= i <= pieces@.len(),
                chars@ == trimmed(s@),
                chars@.len() > 0,
                find_from(chars@, ", "@, 0) < chars@.len(),
                pieces_of(pieces@) == split(chars@, ", "@),
                rest == pieces_of(pieces@).drop_first(),
                unique_keys(pairs_of(parameters@)),
                parameters_from(rest.subrange(0, i - 1)) == Ok::<Pairs, Seq<char>>(
                    pairs_of(parameters@),
                ),
            decreases pieces@.len() - i,
        {
            proof {
                let upto = rest.subrange(0, i as int);
                assert(upto.drop_last() == rest.subrange(0, i - 1));
                assert(upto.last() == pieces@[i as int]@);
                if key_of(upto.last()) is None || value_of_line(upto.last()) is None {
                    lemma_parameters_from_prefix(rest, i as int);
                }
            }
            let (key, value) = first_words(&pieces[i]);
            match key {
                None => {
                    return Err(Error::new(ErrorKind::Validation, "Key not found"));
                },
                Some(k) => match value {
                    None => {
                        return Err(Error::new(ErrorKind::Validation, "Value not found"));
                    },
                    Some(v) => {
                        set_parameter(&mut parameters, k, v);
                    },
                },
            }
            i += 1;
        }
        assert(rest.subrange(0, rest.len() as int) == rest);
        Ok(Command { name, parameters })
    }
}

/// A split always gives at least one piece.
pub proof fn lemma_split_nonempty(s: Seq<char>, sep: Seq<char>, start: int, i: int)
    ensures
        split_from(s, sep, start, i).len() >= 1,
    decreases s.len() - i,
{
    if i >= s.len() {
    } else if occurs_at(s, sep, i) {
    } else {
        lemma_split_nonempty(s, sep, start, i + 1);
    }
}

/// Once a prefix of the pieces fails, every longer prefix fails in the same
/// way.
pub proof fn lemma_parameters_from_prefix(pieces: Seq<Seq<char>>, n: int)
    requires
        0 <= n <= pieces.len(),
        parameters_from(pieces.subrange(0, n)) is Err,
    ensures
        parameters_from(pieces) == parameters_from(pieces.subrange(0, n)),
    decreases pieces.len() - n,
{
    if n < pieces.len() {
        let longer = pieces.subrange(0, n + 1);
        assert(longer.drop_last() == pieces.subrange(0, n));
        lemma_parameters_from_prefix(pieces, n + 1);
    } else {
        assert(pieces.subrange(0, n) == pieces);
    }
}

} // verus!
