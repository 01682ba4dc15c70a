//! The scan of a decoded body for a declared character set.
//!
//! The text is cut at every `;`. The first piece that, after its leading
//! white space, begins with `charset=` declares the character set: the label
//! is what follows the token up to the next `=`, `"` or the end of the
//! piece, trimmed and in lower case. Without such a piece the label is
//! `utf-8`.

use vstd::prelude::*;
use crate::text::{
    ascii_lower, begins_with, drop_spaces, lowered, skip_spaces, span, span_from, starts_with,
    trim, trim_start,
};

verus! {

/// The token `charset=`.
pub open spec fn charset_token() -> Seq<char> {
    seq!['c', 'h', 'a', 'r', 's', 'e', 't', '=']
}

/// The label `utf-8`.
pub open spec fn utf8_label() -> Seq<char> {
    seq!['u', 't', 'f', '-', '8']
}

/// Whether a piece declares a character set.
pub open spec fn names_charset(piece: Seq<char>) -> bool {
    starts_with(trim_start(piece), charset_token())
}

/// The first piece of `text`, cut at `;`, that declares a character set.
pub open spec fn charset_piece(text: Seq<char>) -> Option<Seq<char>>
    decreases text.len(),
{
    let piece = text.take(span(text, ';', ';') as int);
    if names_charset(piece) {
        Some(piece)
    } else if piece.len() < text.len() {
        charset_piece(text.skip(piece.len() as int + 1))
    } else {
        None
    }
}

/// What a declaring piece holds after the token, up to the next `=` or `"`.
pub open spec fn charset_value(piece: Seq<char>) -> Seq<char> {
    let rest = trim_start(piece).skip(charset_token().len() as int);
    rest.take(span(rest, '=', '"') as int)
}

/// The character set that `text` declares, `utf-8` where it declares none.
pub open spec fn declared_charset(text: Seq<char>) -> Seq<char> {
    match charset_piece(text) {
        Some(piece) => ascii_lower(trim(charset_value(piece))),
        None => utf8_label(),
    }
}

/// The token as a vector.
pub fn token_chars() -> (t: Vec<char>)
    ensures
        t@ == charset_token(),
{
    let mut t: Vec<char> = Vec::new();
    t.push('c');
    t.push('h');
    t.push('a');
    t.push('r');
    t.push('s');
    t.push('e');
    t.push('t');
    t.push('=');
    t
}

/// The label `utf-8` as a vector.
pub fn utf8_chars() -> (t: Vec<char>)
    ensures
        t@ == utf8_label(),
{
    let mut t: Vec<char> = Vec::new();
    t.push('u');
    t.push('t');
    t.push('f');
    t.push('-');
    t.push('8');
    t
}

/// Scans `text` for a declared character set.
pub fn scan_charset(text: &Vec<char>) -> (label: Vec<char>)
    ensures
        label@ == declared_charset(text@),
{
    let token = token_chars();
    let n = text.len();
    let mut from: usize = 0;
    assert(text@.skip(0) =~= text@);
    loop
        invariant
            from <= n == text.len(),
            token@ == charset_token(),
            charset_piece(text@) == charset_piece(text@.skip(from as int)),
        decreases n - from,
    {
        let ghost tail = text@.skip(from as int);
        let to = span_from(text, from, n, ';', ';');
        let ghost piece = text@.subrange(from as int, to as int);
        assert(piece =~= tail.take(span(tail, ';', ';') as int));
        let start = skip_spaces(text, from, to);
        assert(text@.subrange(start as int, to as int) =~= trim_start(piece));
        if begins_with(text, start, to, &token) {
            let value_from = start + token.len();
            let ghost rest = trim_start(piece).skip(charset_token().len() as int);
            assert(rest =~= text@.subrange(value_from as int, to as int));
            let value_to = span_from(text, value_from, to, '=', '"');
            assert(text@.subrange(value_from as int, value_to as int) =~= charset_value(piece));
            let a = skip_spaces(text, value_from, value_to);
            assert(text@.subrange(a as int, value_to as int) =~= trim_start(charset_value(piece)));
            let b = drop_spaces(text, a, value_to);
            let label = lowered(text, a, b);
            return label;
        }
        if to == n {
            let label = utf8_chars();
            return label;
        }
        assert(text@.skip(to + 1) =~= tail.skip(piece.len() as int + 1));
        from = to + 1;
    }
}

} // verus!
