//! Comparing and measuring texts.

use vstd::prelude::*;
use vstd::std_specs::iter::IteratorSpec;
use vstd::utf8::encode_utf8;

verus! {

/// Whether `a` and `b` are the same text.
pub fn same_text(a: &str, b: &str) -> (same: bool)
    ensures
        same == (a@ == b@),
{
    broadcast use vstd::string::group_string_axioms;

    let mut rest = b.chars();
    for c in it: a.chars()
        invariant
            it.seq() == a@,
            rest.obeys_prophetic_iter_laws(),
            it.index() <= b@.len(),
            rest.remaining() == b@.skip(it.index() as int),
            a@.take(it.index() as int) == b@.take(it.index() as int),
    {
        match rest.next() {
            None => {
                return false;
            },
            Some(d) => {
                if c != d {
                    return false;
                }
            },
        }
    }
    assert(a@.take(a@.len() as int) == a@);
    match rest.next() {
        None => {
            assert(b@.take(a@.len() as int) == b@);
            true
        },
        Some(_) => false,
    }
}

proof fn lemma_chars_within_bytes(chars: Seq<char>)
    ensures
        chars.len() <= encode_utf8(chars).len(),
    decreases chars.len(),
{
    if chars.len() > 0 {
        lemma_chars_within_bytes(chars.drop_first());
    }
}

/// A string has no more characters than bytes, so their number fits a `usize`.
pub(crate) fn bound_char_count(text: &str)
    ensures
        text@.len() <= usize::MAX,
{
    let bytes = text.as_bytes();
    proof {
        lemma_chars_within_bytes(text@);
        vstd::slice::axiom_spec_len(bytes);
    }
}

} // verus!
