//! Latin letters that look like Cyrillic capitals, read as those capitals.

use vstd::prelude::*;
use crate::text::to_chars;

verus! {

/// The Cyrillic capital that the Latin letter `c` looks like, in either
/// case; any other character is kept.
pub open spec fn cyrillic_of(c: char) -> char {
    if c == 'A' || c == 'a' {
        'А'
    } else if c == 'B' || c == 'b' {
        'В'
    } else if c == 'C' || c == 'c' {
        'С'
    } else if c == 'E' || c == 'e' {
        'Е'
    } else if c == 'H' || c == 'h' {
        'Н'
    } else if c == 'K' || c == 'k' {
        'К'
    } else if c == 'M' || c == 'm' {
        'М'
    } else if c == 'O' || c == 'o' {
        'О'
    } else if c == 'P' || c == 'p' {
        'Р'
    } else if c == 'T' || c == 't' {
        'Т'
    } else if c == 'X' || c == 'x' {
        'Х'
    } else if c == 'Y' || c == 'y' {
        'У'
    } else {
        c
    }
}

/// `s` with every character replaced by its Cyrillic look-alike.
pub open spec fn cyrillic_text(s: Seq<char>) -> Seq<char> {
    Seq::new(s.len(), |i: int| cyrillic_of(s[i]))
}

/// Maps one character to its Cyrillic look-alike.
pub fn to_cyrillic_char(c: char) -> (out: char)
    ensures
        out == cyrillic_of(c),
{
    if c == 'A' || c == 'a' {
        'А'
    } else if c == 'B' || c == 'b' {
        'В'
    } else if c == 'C' || c == 'c' {
        'С'
    } else if c == 'E' || c == 'e' {
        'Е'
    } else if c == 'H' || c == 'h' {
        'Н'
    } else if c == 'K' || c == 'k' {
        'К'
    } else if c == 'M' || c == 'm' {
        'М'
    } else if c == 'O' || c == 'o' {
        'О'
    } else if c == 'P' || c == 'p' {
        'Р'
    } else if c == 'T' || c == 't' {
        'Т'
    } else if c == 'X' || c == 'x' {
        'Х'
    } else if c == 'Y' || c == 'y' {
        'У'
    } else {
        c
    }
}

/// Text in which Latin look-alikes are read as Cyrillic capitals.
pub trait ToCyrillic: Sized + View<V = Seq<char>> {
    /// The same text with every character mapped to its look-alike.
    fn to_cyrillic(&self) -> (out: Self)
        ensures
            out@ == cyrillic_text(self@),
    ;
}

impl ToCyrillic for String {
    fn to_cyrillic(&self) -> (out: String) {
        let chars = to_chars(self.as_str());
        let mut out = String::new();
        let mut i: usize = 0;
        while i < chars.len()
            invariant
                i <= chars.len(),
                chars@ == self@,
                out@ == cyrillic_text(self@).take(i as int),
            decreases chars.len() - i,
        {
            out.push(to_cyrillic_char(chars[i]));
            assert(out@ =~= cyrillic_text(self@).take(i as int + 1));
            i += 1;
        }
        assert(out@ =~= cyrillic_text(self@));
        out
    }
}

/// Mapping twice is mapping once: no Cyrillic capital is a Latin letter.
pub proof fn lemma_cyrillic_idempotent(s: Seq<char>)
    ensures
        cyrillic_text(cyrillic_text(s)) == cyrillic_text(s),
{
    assert(cyrillic_text(cyrillic_text(s)) =~= cyrillic_text(s));
}

} // verus!
