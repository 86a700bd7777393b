//! Text helpers shared by the SQL models and fixtures.
use vstd::prelude::*;
use vstd::utf8::encode_utf8;

verus! {

/// The byte length that `str::len` reports for a text: the length of its
/// UTF-8 encoding.
pub open spec fn utf8_len(text: Seq<char>) -> int {
    (encode_utf8(text).len() as usize) as int
}

/// The UTF-8 byte length of a text. A `usize` length always fits in `u64`.
pub(crate) fn text_len(value: &String) -> (n: u64)
    ensures
        n == utf8_len(value@),
{
    value.as_str().len() as u64
}

/// A copy of a text.
pub(crate) fn copy_text(text: &String) -> (r: String)
    ensures
        r@ == text@,
{
    text.clone()
}

/// Whether two texts are equal.
pub fn text_is(text: &str, literal: &str) -> (r: bool)
    ensures
        r == (text@ == literal@),
{
    let a = text.to_owned();
    let b = literal.to_owned();
    a.eq(&b)
}

} // verus!
