//! The calculator: normalizes an expression, hands it to the external
//! arithmetic evaluator, and validates the numeric outcome.

use vstd::prelude::*;
use vstd::string::{StrSliceExecFns, StringExecFns};
use crate::normalize::{normalize, spec_normalize};

verus! {

/// What the external evaluator returns on a given text: the IEEE 754 bit
/// pattern of the value it computes, or its error text. The outcome is a
/// function of the text alone.
pub uninterp spec fn eval_of(s: Seq<char>) -> Result<u64, Seq<char>>;

/// The decimal rendering of the value with the given IEEE 754 bit pattern,
/// as the standard library displays it.
pub uninterp spec fn decimal_of(bits: u64) -> Seq<char>;

/// A character the evaluator's tokenizer skips as whitespace.
pub open spec fn is_space_char(c: char) -> bool {
    c == ' ' || c == '\t' || c == '\r' || c == '\n'
}

/// Whether the text holds at least one character that is not whitespace.
/// The evaluator's tokenizer does not return normally on nonempty text made
/// only of whitespace, so the calculator never hands such text over.
pub open spec fn has_nonspace(s: Seq<char>) -> bool {
    exists|i: int| 0 <= i < s.len() && !is_space_char(s[i])
}

fn has_nonspace_str(s: &str) -> (r: bool)
    ensures
        r == has_nonspace(s@),
{
    let n = s.unicode_len();
    let mut i: usize = 0;
    while i < n
        invariant
            0 <= i <= n,
            n == s@.len(),
            forall|k: int| 0 <= k < i ==> is_space_char(s@[k]),
        decreases n - i,
    {
        let c = s.get_char(i);
        if !(c == ' ' || c == '\t' || c == '\r' || c == '\n') {
            assert(0 <= i < s@.len() && !is_space_char(s@[i as int]));
            return true;
        }
        i += 1;
    }
    assert(!has_nonspace(s@));
    false
}

/// Relies on `meval::eval_str`, which parses and evaluates an arithmetic
/// expression over its built-in constants and functions; its outcome depends
/// on the input text alone. On success the call hands back the bit pattern
/// of the computed value together with its rendering by the standard
/// `Display`; on failure, the evaluator's own error text. The tokenizer
/// aborts instead of returning on nonempty text that is all whitespace, so
/// the contract demands at least one non-whitespace character.
#[verifier::external_body]
fn eval_text(expr: &str) -> (r: Result<(u64, String), String>)
    requires
        has_nonspace(expr@),
    ensures
        match r {
            Ok(p) => eval_of(expr@) == Ok::<u64, Seq<char>>(p.0) && p.1@ == decimal_of(p.0),
            Err(m) => eval_of(expr@) matches Err(e) && m@ == e,
        },
{
    match meval::eval_str(expr) {
        Ok(v) => Ok((v.to_bits(), format!("{}", v))),
        Err(e) => Err(format!("{}", e)),
    }
}

/// Whether the IEEE 754 double with these bits is finite: its exponent
/// field is not all ones, which excludes the infinities and every NaN.
pub open spec fn finite_bits(b: u64) -> bool {
    (b >> 52) & 0x7ff != 0x7ff
}

fn finite_bits_exec(b: u64) -> (r: bool)
    ensures
        r == finite_bits(b),
{
    (b >> 52) & 0x7ff != 0x7ff
}

/// The fixed message for an evaluation that yields a NaN or infinite value.
pub open spec fn invalid_result_msg() -> Seq<char> {
    "invalid calculation result"@
}

/// The message wrapping the evaluator's own error text.
pub open spec fn eval_error_msg(e: Seq<char>) -> Seq<char> {
    "math expression error: "@ + e
}

/// The message for an expression that normalizes to empty or all-whitespace
/// text, which is never handed to the evaluator.
pub open spec fn empty_expr_msg() -> Seq<char> {
    "math expression error: empty expression"@
}

/// A successful calculation: the bit pattern of the finite value the
/// evaluator computed, and its decimal rendering.
#[derive(Debug, PartialEq)]
pub struct CalcValue {
    pub bits: u64,
    pub text: String,
}

/// Normalizes the input, evaluates the normalized text, and validates the
/// result: an evaluator failure is wrapped with a prefix, and a NaN or
/// infinite value is rejected with a fixed message, so that a success
/// always carries a finite value. Normalized text that is empty or all
/// whitespace is rejected outright, without touching the evaluator.
pub fn calculate(expr: &str) -> (r: Result<CalcValue, String>)
    ensures
        r matches Ok(v) ==> finite_bits(v.bits),
        !has_nonspace(spec_normalize(expr@)) ==> (r matches Err(m) && m@ == empty_expr_msg()),
        has_nonspace(spec_normalize(expr@)) ==> match eval_of(spec_normalize(expr@)) {
            Ok(bits) => if finite_bits(bits) {
                r matches Ok(v) && v.bits == bits && v.text@ == decimal_of(bits)
            } else {
                r matches Err(m) && m@ == invalid_result_msg()
            },
            Err(e) => r matches Err(m) && m@ == eval_error_msg(e),
        },
{
    let norm = normalize(expr);
    if !has_nonspace_str(norm.as_str()) {
        return Err(String::from_str("math expression error: empty expression"));
    }
    match eval_text(norm.as_str()) {
        Ok(p) => {
            if finite_bits_exec(p.0) {
                Ok(CalcValue { bits: p.0, text: p.1 })
            } else {
                Err(String::from_str("invalid calculation result"))
            }
        },
        Err(e) => {
            let mut m = String::from_str("math expression error: ");
            m.append(e.as_str());
            Err(m)
        },
    }
}

} // verus!
