//! The bus: the subjects on which health is published, and the connection
//! policy.

use vstd::prelude::*;
use crate::text::{
    chars_of, digit_char, digit_value, digits, holds_at, push_digits, push_str, string_of, value_of,
};

verus! {

/// What comes before the slot in a health subject.
pub const SUBJECT_PREFIX: &'static str = "processor.";

/// What comes after the slot in a health subject.
pub const SUBJECT_SUFFIX: &'static str = ".status";

/// The pattern that matches the health subjects of all slots.
pub const SUBJECT_PATTERN: &'static str = "processor.*.status";

/// Number of attempts to connect before the gateway gives up.
pub const CONNECT_ATTEMPTS: u8 = 5;

/// Seconds between two attempts to connect.
pub const CONNECT_DELAY_SECS: u64 = 5;

/// The subject on which the health of the upstream in slot `index` is
/// published.
pub open spec fn subject_of(index: nat) -> Seq<char> {
    SUBJECT_PREFIX@ + digits(index) + SUBJECT_SUFFIX@
}

/// Gives the subject of slot `index`.
pub fn status_subject(index: usize) -> (subject: String)
    ensures
        subject@ == subject_of(index as nat),
{
    let mut out: Vec<char> = Vec::new();
    push_str(&mut out, SUBJECT_PREFIX);
    push_digits(&mut out, index as u128);
    push_str(&mut out, SUBJECT_SUFFIX);
    string_of(&out)
}

/// The number that a run of decimal digits writes; zero for no digits.
pub open spec fn number_of(text: Seq<char>) -> nat
    decreases text.len(),
{
    if text.len() == 0 {
        0
    } else {
        number_of(text.drop_last()) * 10 + (text.last() as int - 48) as nat
    }
}

/// Whether every character is a decimal digit.
pub open spec fn all_digits(text: Seq<char>) -> bool {
    forall|i: int| 0 <= i < text.len() ==> digit_value(#[trigger] text[i]) is Some
}

/// The number that `text` writes as an index: one or more decimal digits,
/// with or without a plus sign before them. Anything else writes no number.
pub open spec fn index_of(text: Seq<char>) -> Option<nat> {
    let run = if text.len() > 0 && text[0] == '+' {
        text.skip(1)
    } else {
        text
    };
    if run.len() > 0 && all_digits(run) {
        Some(number_of(run))
    } else {
        None
    }
}

/// The slot number that a subject names: what stands between the prefix and
/// the suffix, read as an index. A subject of another form names none.
pub open spec fn subject_index(subject: Seq<char>) -> Option<nat> {
    let p = SUBJECT_PREFIX@.len() as int;
    let q = SUBJECT_SUFFIX@.len() as int;
    if subject.len() >= p + q && subject.take(p) == SUBJECT_PREFIX@ && subject.skip(
        subject.len() - q,
    ) == SUBJECT_SUFFIX@ {
        index_of(subject.subrange(p, subject.len() - q))
    } else {
        None
    }
}

/// Reads the slot from a health subject. There are two slots, 0 and 1: a
/// subject that names another number, or none, gives nothing.
pub fn slot_of_subject(subject: &str) -> (slot: Option<usize>)
    ensures
        slot == match subject_index(subject@) {
            Some(n) => if n < 2 {
                Some(n as usize)
            } else {
                None
            },
            None => None,
        },
{
    let text = chars_of(subject);
    let prefix = chars_of(SUBJECT_PREFIX);
    let suffix = chars_of(SUBJECT_SUFFIX);
    let p: usize = prefix.len();
    let q: usize = suffix.len();
    if p > text.len() || q > text.len() - p {
        return None;
    }
    let end: usize = text.len() - q;
    assert(text@.take(p as int) =~= text@.subrange(0, 0 + p));
    assert(text@.skip(text@.len() - q) =~= text@.subrange(end as int, end + q));
    if !holds_at(&text, 0, &prefix) || !holds_at(&text, end, &suffix) {
        return None;
    }
    let ghost middle = text@.subrange(p as int, end as int);
    let mut i: usize = p;
    if i < end && text[i] == '+' {
        i += 1;
    }
    let start: usize = i;
    let ghost run = text@.subrange(start as int, end as int);
    assert(run =~= if middle.len() > 0 && middle[0] == '+' {
        middle.skip(1)
    } else {
        middle
    });
    if start == end {
        return None;
    }
    let ghost named = subject_index(subject@);
    assert(named == if all_digits(run) {
        Some(number_of(run))
    } else {
        None
    });
    // The number read so far, or 2 for any number from 2 on.
    let mut capped: u8 = 0;
    while i < end
        invariant
            start <= i <= end <= text.len(),
            run == text@.subrange(start as int, end as int),
            named == subject_index(subject@),
            named == if all_digits(run) {
                Some(number_of(run))
            } else {
                None
            },
            all_digits(run.take(i - start)),
            capped <= 2,
            capped < 2 ==> number_of(run.take(i - start)) == capped,
            capped == 2 ==> number_of(run.take(i - start)) >= 2,
        decreases end - i,
    {
        let ghost before = run.take(i - start);
        let ghost after = run.take(i - start + 1);
        assert(after.drop_last() =~= before);
        assert(after.last() == text@[i as int]);
        match value_of(text[i]) {
            None => {
                assert(digit_value(run[i - start]) is None);
                return None;
            },
            Some(d) => {
                assert forall|k: int| 0 <= k < after.len() implies digit_value(
                    #[trigger] after[k],
                ) is Some by {
                    if k < before.len() {
                        assert(after[k] == before[k]);
                    }
                }
                if capped >= 2 {
                    capped = 2;
                } else {
                    let next: u8 = capped * 10 + d;
                    capped = if next >= 2 {
                        2
                    } else {
                        next
                    };
                }
            },
        }
        i += 1;
    }
    assert(run.take(i - start) =~= run);
    if capped < 2 {
        Some(capped as usize)
    } else {
        None
    }
}

/// The digits of a number are digits, and write that number.
pub proof fn lemma_digits_write(n: nat)
    ensures
        digits(n).len() > 0,
        all_digits(digits(n)),
        number_of(digits(n)) == n,
        digits(n)[0] != '+',
    decreases n,
{
    assert(digit_char((n % 10) as int) as int == n % 10 + 48);
    if n < 10 {
        assert(digits(n).drop_last() =~= Seq::<char>::empty());
        assert(digits(n).last() == digit_char(n as int));
        assert(number_of(Seq::<char>::empty()) == 0);
        assert(number_of(digits(n)) == number_of(digits(n).drop_last()) * 10 + (digits(n).last() as int
            - 48) as nat);
    } else {
        lemma_digits_write(n / 10);
        assert(digits(n).drop_last() =~= digits(n / 10));
        assert(digits(n).last() == digit_char((n % 10) as int));
        assert(number_of(digits(n)) == number_of(digits(n).drop_last()) * 10 + (digits(n).last() as int
            - 48) as nat);
        assert forall|i: int| 0 <= i < digits(n).len() implies digit_value(
            #[trigger] digits(n)[i],
        ) is Some by {
            if i < digits(n / 10).len() {
                assert(digits(n)[i] == digits(n / 10)[i]);
            }
        }
    }
}

/// The subject of a slot names that slot: what a prober publishes on, a
/// subscriber reads back.
pub proof fn law_subject_names_its_slot(index: nat)
    ensures
        subject_index(subject_of(index)) == Some(index),
{
    lemma_digits_write(index);
    let subject = subject_of(index);
    let p = SUBJECT_PREFIX@.len() as int;
    let q = SUBJECT_SUFFIX@.len() as int;
    assert(subject.take(p) =~= SUBJECT_PREFIX@);
    assert(subject.skip(subject.len() - q) =~= SUBJECT_SUFFIX@);
    assert(subject.subrange(p, subject.len() - q) =~= digits(index));
}

/// What to do after an attempt to connect.
#[derive(Debug, Clone, Copy, PartialEq, Eq, Structural)]
pub enum ConnectStep {
    /// The connection stands: use it.
    Connected,
    /// Wait this many seconds, then try again.
    RetryAfter { secs: u64 },
    /// The last attempt has failed: the gateway cannot start.
    GiveUp,
}

/// The step after attempt number `tentativa`, counted from 1, to connect to
/// the bus: a connection that stands is used; after a failure the next
/// attempt follows `CONNECT_DELAY_SECS` later, and after the failure of
/// attempt `CONNECT_ATTEMPTS` there is none.
pub fn cria_cliente_nats(tentativa: u8, connected: bool) -> (step: ConnectStep)
    ensures
        step == if connected {
            ConnectStep::Connected
        } else if tentativa < CONNECT_ATTEMPTS {
            ConnectStep::RetryAfter { secs: CONNECT_DELAY_SECS }
        } else {
            ConnectStep::GiveUp
        },
{
    if connected {
        ConnectStep::Connected
    } else if tentativa < CONNECT_ATTEMPTS {
        ConnectStep::RetryAfter { secs: CONNECT_DELAY_SECS }
    } else {
        ConnectStep::GiveUp
    }
}

} // verus!
