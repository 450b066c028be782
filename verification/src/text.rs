//! Text helpers: std's string functions that vstd does not specify.
use vstd::prelude::*;

verus! {

/// `s` with every occurrence of the non-empty `from` replaced by `to`,
/// occurrences found from left to right without overlapping.
pub open spec fn replace_all(s: Seq<char>, from: Seq<char>, to: Seq<char>) -> Seq<char>
    recommends
        from.len() > 0,
    decreases s.len(),
{
    if s.len() == 0 || from.len() == 0 {
        s
    } else if from.len() <= s.len() && s.subrange(0, from.len() as int) == from {
        to + replace_all(s.skip(from.len() as int), from, to)
    } else {
        seq![s[0]] + replace_all(s.skip(1), from, to)
    }
}

/// `str::replace(s, from, to)`, which std documents as replacing all matches
/// of the pattern, taken from left to right without overlap. The pattern must
/// not be empty (std treats the empty pattern differently).
#[verifier::external_body]
pub(crate) fn str_replace(s: &str, from: &str, to: &str) -> (r: String)
    requires
        from@.len() > 0,
    ensures
        r@ == replace_all(s@, from@, to@),
{
    s.replace(from, to)
}

/// `String::from_utf8(bytes)`: the text that the bytes encode in UTF-8, or
/// `None` where they are not valid UTF-8, as std documents it.
#[verifier::external_body]
pub(crate) fn utf8_to_string(bytes: Vec<u8>) -> (r: Option<String>)
    ensures
        r is Some <==> vstd::utf8::valid_utf8(bytes@),
        r is Some ==> r->0@ == vstd::utf8::decode_utf8(bytes@),
{
    String::from_utf8(bytes).ok()
}

} // verus!
