//! Human-readable sizes: a whole number of units, either plain bytes or
//! bytes under a decimal magnitude prefix (`k`, `M`, `G`, ...).
use vstd::prelude::*;
use vstd::string::*;
use crate::text::{decimal, decimal_text, is_digit, lemma_decimal_digits};

verus! {

/// The text of a size of `n` units: `"<n> bytes"` without a prefix, and
/// `"<n> <prefix>B"` with one.
pub open spec fn size_text(n: nat, prefix: Option<Seq<char>>) -> Seq<char> {
    match prefix {
        None => decimal(n) + " bytes"@,
        Some(p) => decimal(n) + " "@ + p + "B"@,
    }
}

/// The summary line of a build's sizes, from the rendered sizes of the wasm
/// module (if there is one) and of the script.
pub open spec fn summary_text(wasm: Option<Seq<char>>, script: Seq<char>) -> Seq<char> {
    match wasm {
        Some(w) => "Sizes: wasm="@ + w + " script="@ + script,
        None => "Sizes: script="@ + script,
    }
}

/// Renders `n` units, under the decimal magnitude prefix `prefix` if there is
/// one, else as plain bytes.
pub fn render_size(n: u64, prefix: Option<&str>) -> (r: String)
    ensures
        r@ == size_text(n as nat, match prefix {
            Some(p) => Some(p@),
            None => None,
        }),
{
    let mut r = decimal_text(n);
    match prefix {
        None => {
            r.append(" bytes");
        },
        Some(p) => {
            r.append(" ");
            r.append(p);
            r.append("B");
        },
    }
    r
}

/// The summary line of a build's sizes.
pub fn size_summary(wasm: Option<String>, script: String) -> (r: String)
    ensures
        r@ == summary_text(match wasm {
            Some(w) => Some(w@),
            None => None,
        }, script@),
{
    match wasm {
        Some(w) => {
            let mut r = String::from_str("Sizes: wasm=");
            r.append(w.as_str());
            r.append(" script=");
            r.append(script.as_str());
            r
        },
        None => {
            let mut r = String::from_str("Sizes: script=");
            r.append(script.as_str());
            r
        },
    }
}

/// A size without a prefix ends with `" bytes"`, and what comes before is the
/// decimal notation of the count, digits only.
pub proof fn lemma_plain_size(n: nat)
    ensures
        size_text(n, None).len() == decimal(n).len() + 6,
        size_text(n, None).subrange(0, decimal(n).len() as int) == decimal(n),
        size_text(n, None).subrange(decimal(n).len() as int, size_text(n, None).len() as int)
            == " bytes"@,
        forall|i: int| 0 <= i < decimal(n).len() ==> is_digit(#[trigger] size_text(n, None)[i]),
{
    reveal_strlit(" bytes");
    lemma_decimal_digits(n);
    let t = size_text(n, None);
    assert(t.subrange(0, decimal(n).len() as int) =~= decimal(n));
    assert(t.subrange(decimal(n).len() as int, t.len() as int) =~= " bytes"@);
}

/// A size under a prefix ends with the prefix followed by `"B"`, and the
/// number before it is a whole number: digits only, then one space.
pub proof fn lemma_prefixed_size(n: nat, p: Seq<char>)
    ensures
        size_text(n, Some(p)).len() == decimal(n).len() + p.len() + 2,
        size_text(n, Some(p)).last() == 'B',
        size_text(n, Some(p)).subrange(
            decimal(n).len() + 1 as int,
            size_text(n, Some(p)).len() - 1,
        ) == p,
        size_text(n, Some(p))[decimal(n).len() as int] == ' ',
        forall|i: int| 0 <= i < decimal(n).len() ==> is_digit(#[trigger] size_text(n, Some(p))[i]),
{
    reveal_strlit(" ");
    reveal_strlit("B");
    lemma_decimal_digits(n);
    let t = size_text(n, Some(p));
    assert(t.subrange(decimal(n).len() + 1 as int, t.len() - 1) =~= p);
}

} // verus!
