//! The keys of the store: under which name a payment is kept.

use vstd::prelude::*;
use vstd::arithmetic::div_mod::{lemma_basic_div, lemma_div_denominator, lemma_fundamental_div_mod};
use vstd::arithmetic::power::{lemma_pow0, lemma_pow_adds, lemma_pow_positive, pow};
use crate::text::joined;

verus! {

/// Prefix of the key under which a payment is kept.
pub const KEY_PREFIX: &'static str = "payment:";

/// The character of a hexadecimal digit, in lower case.
pub open spec fn hex_char(n: int) -> char {
    if n < 10 {
        (n + 48) as char
    } else {
        (n + 87) as char
    }
}

/// The hexadecimal digit number `k` of a correlation id, counted from the
/// most significant one.
pub open spec fn nibble(correlation_id: u128, k: int) -> int {
    (correlation_id as int / pow(16, (31 - k) as nat)) % 16
}

/// The hyphenated text of a correlation id: its 32 hexadecimal digits, most
/// significant first and in lower case, in groups of 8, 4, 4, 4 and 12 with
/// a hyphen between two groups.
pub open spec fn uuid_text(correlation_id: u128) -> Seq<char> {
    Seq::new(
        36,
        |i: int|
            if i == 8 || i == 13 || i == 18 || i == 23 {
                '-'
            } else {
                let hyphens: int = if i < 8 {
                    0
                } else if i < 13 {
                    1
                } else if i < 18 {
                    2
                } else if i < 23 {
                    3
                } else {
                    4
                };
                hex_char(nibble(correlation_id, i - hyphens))
            },
    )
}

/// Writes a correlation id as `uuid::Uuid` does in its hyphenated form,
/// which is also how it displays: the id is taken with `Uuid::from_u128`,
/// big end first, and each of its 16 bytes gives two lower-case hexadecimal
/// digits, with hyphens after the bytes 4, 6, 8 and 10.
#[verifier::external_body]
pub(crate) fn hyphenated(correlation_id: u128) -> (text: String)
    ensures
        text@ == uuid_text(correlation_id),
{
    uuid::Uuid::from_u128(correlation_id).hyphenated().to_string()
}

/// The key under which the payment of a correlation id is kept.
pub open spec fn key_of(correlation_id: u128) -> Seq<char> {
    KEY_PREFIX@ + uuid_text(correlation_id)
}

/// Gives the key under which the payment of `correlation_id` is kept.
pub fn payment_key(correlation_id: u128) -> (key: String)
    ensures
        key@ == key_of(correlation_id),
{
    let text = hyphenated(correlation_id);
    joined(KEY_PREFIX, text.as_str())
}

/// The place in the hyphenated text of the hexadecimal digit number `k`.
pub open spec fn place(k: int) -> int {
    if k < 8 {
        k
    } else if k < 12 {
        k + 1
    } else if k < 16 {
        k + 2
    } else if k < 20 {
        k + 3
    } else {
        k + 4
    }
}

/// Sixteen to the power of 32 is one more than the greatest correlation id.
proof fn lemma_sixteen_to_32()
    ensures
        pow(16, 32) == 0x1_0000_0000_0000_0000_0000_0000_0000_0000,
{
    lemma_pow0(16);
    reveal(pow);
    assert(pow(16, 1) == 16 * pow(16, 0));
    assert(pow(16, 2) == 16 * pow(16, 1));
    lemma_pow_adds(16, 2, 2);
    assert(pow(16, 4) == 0x1_0000);
    lemma_pow_adds(16, 4, 4);
    assert(pow(16, 8) == 0x1_0000_0000);
    lemma_pow_adds(16, 8, 8);
    assert(pow(16, 16) == 0x1_0000_0000_0000_0000);
    lemma_pow_adds(16, 16, 16);
}

/// The first `j` hexadecimal digits of two correlation ids with the same
/// digits write the same number.
proof fn lemma_same_digits_same_lead(a: u128, b: u128, j: nat)
    requires
        j <= 32,
        forall|k: int| 0 <= k < 32 ==> nibble(a, k) == nibble(b, k),
    ensures
        a as int / pow(16, (32 - j) as nat) == b as int / pow(16, (32 - j) as nat),
    decreases j,
{
    if j == 0 {
        lemma_sixteen_to_32();
        lemma_basic_div(a as int, pow(16, 32));
        lemma_basic_div(b as int, pow(16, 32));
    } else {
        lemma_same_digits_same_lead(a, b, (j - 1) as nat);
        let low = pow(16, (32 - j) as nat);
        let high = pow(16, (32 - (j - 1)) as nat);
        lemma_pow_positive(16, (32 - j) as nat);
        assert(high == 16 * low) by {
            reveal(pow);
        }
        assert(low * 16 == 16 * low) by (nonlinear_arith);
        lemma_div_denominator(a as int, low, 16);
        lemma_div_denominator(b as int, low, 16);
        lemma_fundamental_div_mod(a as int / low, 16);
        lemma_fundamental_div_mod(b as int / low, 16);
        assert(nibble(a, j - 1) == nibble(b, j - 1));
        assert(nibble(a, j - 1) == (a as int / low) % 16);
        assert(nibble(b, j - 1) == (b as int / low) % 16);
    }
}

/// Two correlation ids with the same key are the same: under its key the
/// store keeps the payment of one correlation id, and of no other.
pub proof fn law_key_names_one_id(a: u128, b: u128)
    requires
        key_of(a) == key_of(b),
    ensures
        a == b,
{
    let prefix = KEY_PREFIX@;
    assert(key_of(a).skip(prefix.len() as int) =~= uuid_text(a));
    assert(key_of(b).skip(prefix.len() as int) =~= uuid_text(b));
    assert forall|k: int| 0 <= k < 32 implies nibble(a, k) == nibble(b, k) by {
        let i = place(k);
        assert(uuid_text(a)[i] == hex_char(nibble(a, k)));
        assert(uuid_text(b)[i] == hex_char(nibble(b, k)));
        let x = nibble(a, k);
        let y = nibble(b, k);
        assert(0 <= x < 16 && 0 <= y < 16);
        assert(hex_char(x) as int == if x < 10 {
            x + 48
        } else {
            x + 87
        });
        assert(hex_char(y) as int == if y < 10 {
            y + 48
        } else {
            y + 87
        });
    }
    lemma_same_digits_same_lead(a, b, 32);
    lemma_pow0(16);
}

} // verus!
