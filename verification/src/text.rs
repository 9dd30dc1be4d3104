use itertools::Itertools;
use vstd::prelude::*;

verus! {

/// The values of a run of texts, in order.
pub open spec fn texts_view(texts: Seq<String>) -> Seq<Seq<char>> {
    Seq::new(texts.len(), |i: int| texts[i]@)
}

/// The parts written one after another, with `separator` between neighbours.
pub open spec fn joined(parts: Seq<Seq<char>>, separator: Seq<char>) -> Seq<char>
    decreases parts.len(),
{
    if parts.len() == 0 {
        Seq::empty()
    } else if parts.len() == 1 {
        parts[0]
    } else {
        joined(parts.drop_last(), separator) + separator + parts.last()
    }
}

/// Joins texts with a separator.
///
/// Calls `itertools::Itertools::join` on the texts' iterator. Trusted: the
/// result is empty for no texts, and otherwise the first text followed, for
/// each further text, by the separator and that text.
#[verifier::external_body]
pub(crate) fn join(texts: &Vec<String>, separator: &str) -> (r: String)
    ensures
        r@ == joined(texts_view(texts@), separator@),
{
    texts.iter().join(separator)
}

/// The character of a decimal digit.
pub open spec fn digit(d: nat) -> char
    recommends
        d < 10,
{
    "0123456789"@[d as int]
}

/// A number in decimal, without sign or leading zeros.
pub open spec fn decimal(n: nat) -> Seq<char>
    decreases n,
{
    if n < 10 {
        seq![digit(n)]
    } else {
        decimal(n / 10).push(digit(n % 10))
    }
}

/// Writes a number in decimal.
///
/// Calls `ToString::to_string` on a `u64`. Trusted: the text is the number's
/// decimal digits, most significant first, without sign or leading zeros.
#[verifier::external_body]
pub(crate) fn decimal_text(n: u64) -> (r: String)
    ensures
        r@ == decimal(n as nat),
{
    n.to_string()
}

/// Joins texts into lines: a line feed between neighbours, none at the end.
pub fn join_lines(texts: &Vec<String>) -> (r: String)
    ensures
        r@ == joined(texts_view(texts@), "\n"@),
{
    join(texts, "\n")
}

} // verus!
