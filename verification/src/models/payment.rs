//! A payment as the gateway receives, dispatches and stores it.

use vstd::prelude::*;
use vstd::arithmetic::div_mod::{lemma_basic_div, lemma_div_denominator, lemma_small_div_converse};
use vstd::arithmetic::power::{lemma_pow0, lemma_pow_increases, lemma_pow_positive, pow};
use crate::models::processor::TipoProcessador;
use crate::models::summary::DecimalParts;

verus! {

/// A payment inside the gateway.
///
/// `amount` counts ten-thousandths of the currency unit, so that sums are
/// exact. `requested_at` is in microseconds since the Unix epoch and is absent
/// until the dispatch begins; `tipo` is absent until an upstream has accepted
/// the payment.
#[derive(Debug, Clone, Copy, PartialEq, Eq, Structural)]
pub struct Payment {
    pub correlation_id: u128,
    pub amount: i64,
    pub requested_at: Option<i64>,
    pub tipo: Option<TipoProcessador>,
}

/// What an upstream is sent for one payment.
#[derive(Debug, Clone, Copy, PartialEq, Eq, Structural)]
pub struct PaymentRequest {
    pub correlation_id: u128,
    pub amount: i64,
    pub requested_at: i64,
}

/// Reads the wall clock through `chrono::Utc::now` and gives the instant in
/// microseconds since the Unix epoch, as `DateTime::timestamp_micros` counts
/// them. Nothing is claimed of the value: it is whatever the clock says.
/// `Utc::now` does not return where the system clock stands before the epoch.
#[verifier::external_body]
pub(crate) fn now_micros() -> i64 {
    chrono::Utc::now().timestamp_micros()
}

impl Payment {
    /// A payment as it enters the gateway: no request time, no processor.
    pub fn fresh(correlation_id: u128, amount: i64) -> (p: Payment)
        ensures
            p == (Payment { correlation_id, amount, requested_at: None, tipo: None }),
    {
        Payment { correlation_id, amount, requested_at: None, tipo: None }
    }

    /// The request time after the clock has been read as `now`: the time that
    /// was already there, or else `now`.
    pub open spec fn stamped(self, now: i64) -> Payment {
        Payment {
            requested_at: Some(
                match self.requested_at {
                    Some(t) => t,
                    None => now,
                },
            ),
            ..self
        }
    }

    /// Assigns the request time `now` unless one was assigned before.
    pub fn stamp(&mut self, now: i64)
        ensures
            *final(self) == old(self).stamped(now),
    {
        if self.requested_at.is_none() {
            self.requested_at = Some(now);
        }
    }

    /// Assigns the current time as the request time unless one was assigned
    /// before. A request time, once there, is never replaced.
    pub fn update_date(&mut self)
        ensures
            exists|now: i64| *final(self) == old(self).stamped(now),
            old(self).requested_at is Some ==> *final(self) == *old(self),
    {
        if self.requested_at.is_none() {
            let now: i64 = now_micros();
            self.stamp(now);
            assert(*self == old(self).stamped(now));
        } else {
            assert(*self == old(self).stamped(0));
        }
    }

    /// Records the upstream that accepted the payment.
    pub fn set_processador(&mut self, tipo: TipoProcessador)
        ensures
            *final(self) == (Payment { tipo: Some(tipo), ..*old(self) }),
    {
        self.tipo = Some(tipo);
    }

    /// The request that `to_payment_request` builds.
    pub open spec fn request(self) -> PaymentRequest
        recommends
            self.requested_at is Some,
    {
        PaymentRequest {
            correlation_id: self.correlation_id,
            amount: self.amount,
            requested_at: self.requested_at->0,
        }
    }

    /// The body sent upstream. The request time must have been assigned.
    pub fn to_payment_request(&self) -> (r: PaymentRequest)
        requires
            self.requested_at is Some,
        ensures
            r == self.request(),
    {
        PaymentRequest {
            correlation_id: self.correlation_id,
            amount: self.amount,
            requested_at: self.requested_at.unwrap(),
        }
    }
}

/// Number of decimal places that an amount keeps.
pub const AMOUNT_SCALE: u32 = 4;

/// The size of a number.
pub open spec fn magnitude(n: int) -> int {
    if n < 0 {
        -n
    } else {
        n
    }
}

/// The ten-thousandths in a decimal number: exact for a number of up to four
/// decimal places; of a number with more, the places beyond the fourth are
/// cut off.
pub open spec fn units_of(mantissa: i128, scale: u32) -> int {
    if scale <= 4 {
        mantissa * pow(10, (4 - scale) as nat)
    } else {
        let cut = magnitude(mantissa as int) / pow(10, (scale - 4) as nat);
        if mantissa < 0 {
            -cut
        } else {
            cut
        }
    }
}

/// The powers of ten up to the fourth.
proof fn lemma_small_powers()
    ensures
        pow(10, 0) == 1,
        pow(10, 1) == 10,
        pow(10, 2) == 100,
        pow(10, 3) == 1000,
        pow(10, 4) == 10000,
{
    reveal(pow);
    assert(pow(10, 0) == 1);
    assert(pow(10, 1) == 10 * pow(10, 0));
    assert(pow(10, 2) == 10 * pow(10, 1));
    assert(pow(10, 3) == 10 * pow(10, 2));
    assert(pow(10, 4) == 10 * pow(10, 3));
}

/// Turns a decimal number into an amount, as `units_of` says. A number whose
/// ten-thousandths do not fit the amount gives nothing.
pub fn amount_from_decimal(mantissa: i128, scale: u32) -> (amount: Option<i64>)
    ensures
        amount == if i64::MIN <= units_of(mantissa, scale) <= i64::MAX {
            Some(units_of(mantissa, scale) as i64)
        } else {
            None
        },
{
    if scale <= 4 {
        let factor: i128 = if scale == 0 {
            10000
        } else if scale == 1 {
            1000
        } else if scale == 2 {
            100
        } else if scale == 3 {
            10
        } else {
            1
        };
        proof {
            lemma_small_powers();
            assert(factor == pow(10, (4 - scale) as nat));
        }
        if mantissa > i64::MAX as i128 || mantissa < i64::MIN as i128 {
            assert(mantissa * factor > i64::MAX || mantissa * factor < i64::MIN)
                by (nonlinear_arith)
                requires
                    mantissa > i64::MAX || mantissa < i64::MIN,
                    factor >= 1,
            ;
            return None;
        }
        assert(-0x8000_0000_0000_0000 * 10000 <= mantissa * factor <= 0x8000_0000_0000_0000
            * 10000) by (nonlinear_arith)
            requires
                -0x8000_0000_0000_0000 <= mantissa <= 0x8000_0000_0000_0000,
                1 <= factor <= 10000,
        ;
        let units: i128 = mantissa * factor;
        if units > i64::MAX as i128 || units < i64::MIN as i128 {
            None
        } else {
            Some(units as i64)
        }
    } else {
        let places: u32 = scale - 4;
        let size: u128 = if mantissa >= 0 {
            mantissa as u128
        } else {
            (-(mantissa + 1)) as u128 + 1
        };
        let mut cut: u128 = size;
        let mut done: u32 = 0;
        proof {
            lemma_pow0(10);
        }
        while done < places && cut > 0
            invariant
                done <= places,
                size == magnitude(mantissa as int),
                cut == size as int / pow(10, done as nat),
            decreases places - done,
        {
            proof {
                lemma_pow_positive(10, done as nat);
                lemma_div_denominator(size as int, pow(10, done as nat), 10);
                reveal(pow);
                assert(pow(10, (done + 1) as nat) == 10 * pow(10, done as nat));
                assert(pow(10, done as nat) * 10 == 10 * pow(10, done as nat)) by (nonlinear_arith);
            }
            cut = cut / 10;
            done += 1;
        }
        proof {
            if done < places {
                lemma_pow_positive(10, done as nat);
                lemma_pow_positive(10, places as nat);
                lemma_small_div_converse(size as int, pow(10, done as nat));
                lemma_pow_increases(10, done as nat, places as nat);
                lemma_basic_div(size as int, pow(10, places as nat));
            }
            assert(cut == magnitude(mantissa as int) / pow(10, places as nat));
        }
        if mantissa >= 0 {
            if cut > i64::MAX as u128 {
                None
            } else {
                Some(cut as i64)
            }
        } else {
            if cut > i64::MAX as u128 + 1 {
                None
            } else if cut == i64::MAX as u128 + 1 {
                Some(i64::MIN)
            } else {
                Some(-(cut as i64))
            }
        }
    }
}

impl Payment {
    /// The amount as a decimal number of `AMOUNT_SCALE` places.
    pub fn amount_parts(&self) -> (parts: DecimalParts)
        ensures
            parts == (DecimalParts { mantissa: self.amount as i128, scale: AMOUNT_SCALE }),
            units_of(parts.mantissa, parts.scale) == self.amount,
    {
        proof {
            lemma_pow0(10);
        }
        DecimalParts { mantissa: self.amount as i128, scale: AMOUNT_SCALE }
    }
}

} // verus!
