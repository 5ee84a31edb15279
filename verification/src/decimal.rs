//! Exact fixed-point decimals, read from text by `rust_decimal`.

use vstd::prelude::*;

verus! {

/// The largest scale that a decimal can have.
pub const MAX_SCALE: u32 = 28;

/// The largest magnitude of a mantissa: 2^96 - 1.
pub const MAX_MANTISSA: i128 = 79228162514264337593543950335i128;

/// The number `mantissa / 10^scale`, held exactly.
#[derive(Clone, Copy, Debug, PartialEq, Eq, Structural)]
pub struct Decimal {
    pub mantissa: i128,
    pub scale: u32,
}

impl Decimal {
    /// The mantissa fits in 96 bits and a sign, and the scale is at most 28.
    pub open spec fn wf(self) -> bool {
        &&& self.scale <= MAX_SCALE
        &&& -MAX_MANTISSA <= self.mantissa <= MAX_MANTISSA
    }
}

/// What `rust_decimal` reads from a text in plain notation.
pub uninterp spec fn decimal_plain(text: Seq<char>) -> Option<Decimal>;

/// What `rust_decimal` reads from a text in scientific notation.
pub uninterp spec fn decimal_scientific(text: Seq<char>) -> Option<Decimal>;

/// The decimal that a text stands for: its plain reading, else its scientific
/// one.
pub open spec fn decimal_of(text: Seq<char>) -> Option<Decimal> {
    match decimal_plain(text) {
        Some(d) => Some(d),
        None => decimal_scientific(text),
    }
}

/// `<rust_decimal::Decimal as FromStr>::from_str`, with the result taken apart
/// by `mantissa()` and `scale()`. The contract claims that the outcome is a
/// function of the text, and that a decimal of that crate has a mantissa of at
/// most 96 bits and a scale of at most 28.
#[verifier::external_body]
fn read_plain(text: &str) -> (read: Option<Decimal>)
    ensures
        read == decimal_plain(text@),
        read matches Some(d) ==> d.wf(),
{
    match <rust_decimal::Decimal as std::str::FromStr>::from_str(text) {
        Ok(d) => Some(Decimal { mantissa: d.mantissa(), scale: d.scale() }),
        Err(_) => None,
    }
}

/// `rust_decimal::Decimal::from_scientific`, with the result taken apart by
/// `mantissa()` and `scale()`. The contract claims the same as that of
/// `read_plain`.
#[verifier::external_body]
fn read_scientific(text: &str) -> (read: Option<Decimal>)
    ensures
        read == decimal_scientific(text@),
        read matches Some(d) ==> d.wf(),
{
    match rust_decimal::Decimal::from_scientific(text) {
        Ok(d) => Some(Decimal { mantissa: d.mantissa(), scale: d.scale() }),
        Err(_) => None,
    }
}

/// Reads a decimal from a text: plain notation first, scientific notation
/// where that fails.
pub fn parse_decimal(text: &str) -> (read: Option<Decimal>)
    ensures
        read == decimal_of(text@),
        read matches Some(d) ==> d.wf(),
{
    match read_plain(text) {
        Some(d) => Some(d),
        None => read_scientific(text),
    }
}

} // verus!
