//! The summary that the gateway answers.

use vstd::prelude::*;
use std::str::FromStr;

verus! {

/// A decimal number: `mantissa` divided by ten to the power of `scale`.
#[derive(Debug, Clone, Copy, PartialEq, Eq, Structural)]
pub struct DecimalParts {
    pub mantissa: i128,
    pub scale: u32,
}

/// Count and amount of the payments that one upstream accepted.
#[derive(Debug, Clone, Copy, PartialEq, Eq, Structural)]
pub struct Summary {
    pub total_requests: u64,
    pub total_amount: DecimalParts,
}

/// The summary of both upstreams.
#[derive(Debug, Clone, Copy, PartialEq, Eq, Structural)]
pub struct PaymentSummary {
    pub default: Summary,
    pub fallback: Summary,
}

/// What `rust_decimal::Decimal::from_str` makes of a text: the mantissa and
/// the scale of the decimal it parses to, or nothing where it refuses the
/// text.
pub uninterp spec fn decimal_from_str(text: Seq<char>) -> Option<(i128, u32)>;

/// Parses a decimal number with `rust_decimal::Decimal::from_str` and gives
/// the parsed value by its `mantissa` and `scale`; nothing where the parser
/// returns an error.
#[verifier::external_body]
pub(crate) fn parse_decimal(text: &str) -> (parsed: Option<(i128, u32)>)
    ensures
        parsed == decimal_from_str(text@),
{
    match rust_decimal::Decimal::from_str(text) {
        Ok(d) => Some((d.mantissa(), d.scale())),
        Err(_) => None,
    }
}

impl DecimalParts {
    /// Zero, with no decimal places.
    pub open spec fn zero() -> DecimalParts {
        DecimalParts { mantissa: 0, scale: 0 }
    }

    /// The amount that stands for the outcome of a parse: the parsed number,
    /// or zero where the text did not parse.
    pub open spec fn or_zero(parsed: Option<(i128, u32)>) -> DecimalParts {
        match parsed {
            Some(parts) => DecimalParts { mantissa: parts.0, scale: parts.1 },
            None => DecimalParts::zero(),
        }
    }

    /// Computes `or_zero`.
    pub fn from_parsed(parsed: Option<(i128, u32)>) -> (amount: DecimalParts)
        ensures
            amount == DecimalParts::or_zero(parsed),
    {
        match parsed {
            Some(parts) => DecimalParts { mantissa: parts.0, scale: parts.1 },
            None => DecimalParts { mantissa: 0, scale: 0 },
        }
    }

    /// Reads an amount as the store writes it; a text that is no decimal
    /// number reads as zero.
    pub fn read(text: &str) -> (amount: DecimalParts)
        ensures
            amount == DecimalParts::or_zero(decimal_from_str(text@)),
    {
        DecimalParts::from_parsed(parse_decimal(text))
    }
}

} // verus!
