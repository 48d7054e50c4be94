//! The window cache of accepted payments: what a save leaves in the store,
//! what the time-ranged summary answers, and what a purge leaves.
//!
//! Each payment is kept under its correlation id and entered in a time index
//! with its request time as the score. Values expire; index entries stay. The
//! summary therefore counts only the entries whose value is still there.

use vstd::prelude::*;
use crate::api::nats::{ConnectStep, CONNECT_ATTEMPTS, CONNECT_DELAY_SECS};
use crate::models::payment::Payment;
use crate::models::processor::TipoProcessador;
use crate::text::{digit_char, digit_of, digits, push_digits, string_of};

verus! {

/// Name of the time index in the store.
pub const INDEX_KEY: &'static str = "payments_by_date";

/// Lifetime of a stored payment, in seconds.
pub const TTL_SECONDS: u64 = 80;

/// Number of keys that the summary reads from the store at a time.
pub const CHUNK_SIZE: usize = 5000;

/// Number of attempts to save a payment before it is dropped.
pub const SAVE_ATTEMPTS: u8 = 50;

/// Milliseconds between two attempts to save.
pub const SAVE_DELAY_MS: u64 = 1;

/// What to do after an attempt to save a payment.
#[derive(Debug, Clone, Copy, PartialEq, Eq, Structural)]
pub enum SaveStep {
    /// The payment is in the store.
    Saved,
    /// Wait this many milliseconds, then try again.
    RetryAfter { ms: u64 },
    /// The last attempt has failed: the payment is dropped. It is not sent
    /// upstream again, where it was accepted.
    Dropped,
}

/// The step after attempt number `tentativa`, counted from 1, to save a
/// payment: after a failure the next attempt follows `SAVE_DELAY_MS` later,
/// and after the failure of attempt `SAVE_ATTEMPTS` there is none.
pub fn after_save_attempt(tentativa: u8, saved: bool) -> (step: SaveStep)
    ensures
        step == if saved {
            SaveStep::Saved
        } else if tentativa < SAVE_ATTEMPTS {
            SaveStep::RetryAfter { ms: SAVE_DELAY_MS }
        } else {
            SaveStep::Dropped
        },
{
    if saved {
        SaveStep::Saved
    } else if tentativa < SAVE_ATTEMPTS {
        SaveStep::RetryAfter { ms: SAVE_DELAY_MS }
    } else {
        SaveStep::Dropped
    }
}

/// Number of connections that the pool of the store is made for: two for
/// each worker, and no more than a `usize` holds.
pub fn pool_size(num_consumer: usize) -> (size: usize)
    ensures
        size == if 2 * num_consumer <= usize::MAX {
            2 * num_consumer
        } else {
            usize::MAX as int
        },
{
    if num_consumer <= usize::MAX / 2 {
        2 * num_consumer
    } else {
        usize::MAX
    }
}

/// The step after attempt number `tentativa`, counted from 1, to make the
/// connection pool of the store: a pool that stands is used; after a failure
/// the next attempt follows `CONNECT_DELAY_SECS` later, and after the failure
/// of attempt `CONNECT_ATTEMPTS` there is none.
pub fn estabelecer_pool_conexao(tentativa: u8, created: bool) -> (step: ConnectStep)
    ensures
        step == if created {
            ConnectStep::Connected
        } else if tentativa < CONNECT_ATTEMPTS {
            ConnectStep::RetryAfter { secs: CONNECT_DELAY_SECS }
        } else {
            ConnectStep::GiveUp
        },
{
    if created {
        ConnectStep::Connected
    } else if tentativa < CONNECT_ATTEMPTS {
        ConnectStep::RetryAfter { secs: CONNECT_DELAY_SECS }
    } else {
        ConnectStep::GiveUp
    }
}

/// One member of the time index with the value kept under its key, if that
/// has not expired.
#[derive(Debug, Clone, Copy, PartialEq, Eq, Structural)]
pub struct Entry {
    pub correlation_id: u128,
    pub score: u64,
    pub value: Option<Payment>,
}

/// The score of a request time: the microseconds as an unsigned number, an
/// instant before the epoch wrapping round to the top of the range.
pub open spec fn score_of(requested_at: i64) -> u64 {
    if requested_at >= 0 {
        requested_at as u64
    } else {
        (requested_at + 0x1_0000_0000_0000_0000) as u64
    }
}

/// Computes `score_of`.
pub fn score(requested_at: i64) -> (s: u64)
    ensures
        s == score_of(requested_at),
{
    if requested_at >= 0 {
        requested_at as u64
    } else {
        u64::MAX - ((-(requested_at + 1)) as u64)
    }
}

/// The entry that a save of `p` makes.
pub open spec fn entry_of(p: Payment) -> Entry
    recommends
        p.requested_at is Some,
{
    Entry { correlation_id: p.correlation_id, score: score_of(p.requested_at->0), value: Some(p) }
}

/// The entries without those of `correlation_id`, the others in their order.
pub open spec fn without(entries: Seq<Entry>, correlation_id: u128) -> Seq<Entry>
    decreases entries.len(),
{
    if entries.len() == 0 {
        Seq::empty()
    } else if entries.last().correlation_id == correlation_id {
        without(entries.drop_last(), correlation_id)
    } else {
        without(entries.drop_last(), correlation_id).push(entries.last())
    }
}

/// The store after a save of `p`: whatever was kept under its correlation id
/// is replaced.
pub open spec fn saved(entries: Seq<Entry>, p: Payment) -> Seq<Entry> {
    without(entries, p.correlation_id).push(entry_of(p))
}

/// The store after the value under `correlation_id` has expired: the index
/// entry stays, without its value.
pub open spec fn expired(entries: Seq<Entry>, correlation_id: u128) -> Seq<Entry> {
    Seq::new(
        entries.len(),
        |i: int|
            if entries[i].correlation_id == correlation_id {
                Entry { value: None, ..entries[i] }
            } else {
                entries[i]
            },
    )
}

/// Whether a value is there and bears `tipo`.
pub open spec fn bears(value: Option<Payment>, tipo: TipoProcessador) -> bool {
    value matches Some(p) && p.tipo == Some(tipo)
}

/// Whether the summary over `[from, to]` counts `e` for `tipo`: the score
/// lies in the range, the value is there and bears that kind.
pub open spec fn counts(e: Entry, from: u64, to: u64, tipo: TipoProcessador) -> bool {
    from <= e.score <= to && bears(e.value, tipo)
}

/// Number of entries that the summary over `[from, to]` counts for `tipo`.
pub open spec fn count_of(entries: Seq<Entry>, from: u64, to: u64, tipo: TipoProcessador) -> nat
    decreases entries.len(),
{
    if entries.len() == 0 {
        0
    } else {
        count_of(entries.drop_last(), from, to, tipo) + if counts(entries.last(), from, to, tipo) {
            1nat
        } else {
            0nat
        }
    }
}

/// Sum of the amounts of the entries that the summary over `[from, to]`
/// counts for `tipo`, in ten-thousandths.
pub open spec fn sum_of(entries: Seq<Entry>, from: u64, to: u64, tipo: TipoProcessador) -> int
    decreases entries.len(),
{
    if entries.len() == 0 {
        0
    } else {
        sum_of(entries.drop_last(), from, to, tipo) + if counts(entries.last(), from, to, tipo) {
            entries.last().value->0.amount as int
        } else {
            0
        }
    }
}

/// An amount of ten-thousandths written with four decimal places: a minus
/// sign if it is negative, the whole part without leading zeros, a point and
/// four digits.
pub open spec fn amount_text(amount: int) -> Seq<char> {
    let size = if amount < 0 {
        -amount
    } else {
        amount
    };
    let sign = if amount < 0 {
        seq!['-']
    } else {
        Seq::<char>::empty()
    };
    sign + digits((size / 10000) as nat) + seq![
        '.',
        digit_char(size / 1000 % 10),
        digit_char(size / 100 % 10),
        digit_char(size / 10 % 10),
        digit_char(size % 10),
    ]
}

/// Writes `amount` as `amount_text` says.
pub fn format_amount(amount: i128) -> (text: String)
    ensures
        text@ == amount_text(amount as int),
{
    let mut out: Vec<char> = Vec::new();
    let size: u128 = if amount >= 0 {
        amount as u128
    } else {
        out.push('-');
        (-(amount + 1)) as u128 + 1
    };
    push_digits(&mut out, size / 10000);
    out.push('.');
    out.push(digit_of((size / 1000 % 10) as u8));
    out.push(digit_of((size / 100 % 10) as u8));
    out.push(digit_of((size / 10 % 10) as u8));
    out.push(digit_of((size % 10) as u8));
    proof {
        assert(out@ =~= amount_text(amount as int));
    }
    string_of(&out)
}

/// What the summary over `[from, to]` answers on these entries: for the
/// preferred upstream and then for the fallback, the number of payments and
/// the sum of their amounts as text.
pub open spec fn summary_of(entries: Seq<Entry>, from: u64, to: u64) -> (
    u64,
    Seq<char>,
    u64,
    Seq<char>,
) {
    (
        count_of(entries, from, to, TipoProcessador::Default) as u64,
        amount_text(sum_of(entries, from, to, TipoProcessador::Default)),
        count_of(entries, from, to, TipoProcessador::Fallback) as u64,
        amount_text(sum_of(entries, from, to, TipoProcessador::Fallback)),
    )
}

/// The positions of the entries whose score lies in `[from, to]`, ascending.
spec fn positions_in_range(entries: Seq<Entry>, from: u64, to: u64) -> Seq<usize>
    decreases entries.len(),
{
    if entries.len() == 0 {
        Seq::empty()
    } else if from <= entries.last().score <= to {
        positions_in_range(entries.drop_last(), from, to).push((entries.len() - 1) as usize)
    } else {
        positions_in_range(entries.drop_last(), from, to)
    }
}

/// The values at `keys`, in the order of the keys.
spec fn values_at(entries: Seq<Entry>, keys: Seq<usize>) -> Seq<Option<Payment>> {
    Seq::new(keys.len(), |k: int| entries[keys[k] as int].value)
}

/// Number of the values that are there and bear `tipo`.
spec fn tally_count(values: Seq<Option<Payment>>, tipo: TipoProcessador) -> nat
    decreases values.len(),
{
    if values.len() == 0 {
        0
    } else {
        tally_count(values.drop_last(), tipo) + if bears(values.last(), tipo) {
            1nat
        } else {
            0nat
        }
    }
}

/// Sum of the amounts of the values that are there and bear `tipo`.
spec fn tally_sum(values: Seq<Option<Payment>>, tipo: TipoProcessador) -> int
    decreases values.len(),
{
    if values.len() == 0 {
        0
    } else {
        tally_sum(values.drop_last(), tipo) + if bears(values.last(), tipo) {
            values.last()->0.amount as int
        } else {
            0
        }
    }
}

/// What holds of the entries of every store: no correlation id occurs twice,
/// and a value that is there is the payment of its entry's correlation id,
/// with a request time of which the entry's score is the score.
pub open spec fn consistent(entries: Seq<Entry>) -> bool {
    &&& forall|i: int, j: int|
        0 <= i < j < entries.len() ==> (#[trigger] entries[i]).correlation_id != (
        #[trigger] entries[j]).correlation_id
    &&& forall|i: int|
        0 <= i < entries.len() ==> ((#[trigger] entries[i]).value matches Some(p) ==> {
            &&& p.correlation_id == entries[i].correlation_id
            &&& p.requested_at matches Some(t)
            &&& entries[i].score == score_of(t)
        })
}

/// The store: the time index with the values that its keys lead to.
pub struct Store {
    entries: Vec<Entry>,
}

impl View for Store {
    type V = Seq<Entry>;

    closed spec fn view(&self) -> Seq<Entry> {
        self.entries@
    }
}

/// Running totals of a summary.
struct Tally {
    default_count: u64,
    default_sum: i128,
    fallback_count: u64,
    fallback_sum: i128,
}

impl Tally {
    /// Adds one value that was read from the store.
    fn add(&mut self, value: Option<Payment>, Ghost(values): Ghost<Seq<Option<Payment>>>)
        requires
            old(self).of(values),
            values.len() < usize::MAX,
        ensures
            final(self).of(values.push(value)),
    {
        proof {
            lemma_tally_bounds(values, TipoProcessador::Default);
            lemma_tally_bounds(values, TipoProcessador::Fallback);
            assert(values.push(value).drop_last() =~= values);
        }
        if let Some(p) = value {
            match p.tipo {
                Some(TipoProcessador::Default) => {
                    self.default_count = self.default_count + 1;
                    self.default_sum = self.default_sum + p.amount as i128;
                },
                Some(TipoProcessador::Fallback) => {
                    self.fallback_count = self.fallback_count + 1;
                    self.fallback_sum = self.fallback_sum + p.amount as i128;
                },
                _ => {},
            }
        }
    }

    /// Whether these are the totals of `values`, of which there are no more
    /// than a `usize` counts.
    spec fn of(self, values: Seq<Option<Payment>>) -> bool {
        &&& values.len() <= usize::MAX
        &&& self.default_count == tally_count(values, TipoProcessador::Default)
        &&& self.default_sum == tally_sum(values, TipoProcessador::Default)
        &&& self.fallback_count == tally_count(values, TipoProcessador::Fallback)
        &&& self.fallback_sum == tally_sum(values, TipoProcessador::Fallback)
    }
}

/// The totals of values stay within what their number allows.
proof fn lemma_tally_bounds(values: Seq<Option<Payment>>, tipo: TipoProcessador)
    ensures
        tally_count(values, tipo) <= values.len(),
        -0x8000_0000_0000_0000 * values.len() <= tally_sum(values, tipo) <= 0x8000_0000_0000_0000
            * values.len(),
    decreases values.len(),
{
    if values.len() > 0 {
        lemma_tally_bounds(values.drop_last(), tipo);
    }
}

/// Reading the values at the positions in range and tallying them gives the
/// count and the sum of the summary.
proof fn lemma_tally_of_range(entries: Seq<Entry>, from: u64, to: u64, tipo: TipoProcessador)
    requires
        entries.len() <= usize::MAX,
    ensures
        forall|k: int|
            0 <= k < positions_in_range(entries, from, to).len() ==> (
            #[trigger] positions_in_range(entries, from, to)[k]) < entries.len(),
        positions_in_range(entries, from, to).len() <= entries.len(),
        tally_count(values_at(entries, positions_in_range(entries, from, to)), tipo) == count_of(
            entries,
            from,
            to,
            tipo,
        ),
        tally_sum(values_at(entries, positions_in_range(entries, from, to)), tipo) == sum_of(
            entries,
            from,
            to,
            tipo,
        ),
    decreases entries.len(),
{
    if entries.len() > 0 {
        let rest = entries.drop_last();
        lemma_tally_of_range(rest, from, to, tipo);
        let keys = positions_in_range(rest, from, to);
        assert forall|k: int| 0 <= k < keys.len() implies entries[keys[k] as int] == rest[keys[k] as int] by {
            assert(keys[k] < rest.len());
        }
        assert(values_at(entries, keys) =~= values_at(rest, keys));
        let all = positions_in_range(entries, from, to);
        if from <= entries.last().score <= to {
            assert(all == keys.push((entries.len() - 1) as usize));
            assert(all.drop_last() =~= keys);
            assert(values_at(entries, all).drop_last() =~= values_at(entries, keys));
            assert(values_at(entries, all).last() == entries.last().value);
        } else {
            assert(all == keys);
        }
    }
}

impl Store {
    /// Every store is consistent.
    #[verifier::type_invariant]
    spec fn inv(self) -> bool {
        consistent(self.entries@)
    }

    /// An empty store.
    pub fn new() -> (store: Store)
        ensures
            store@ == Seq::<Entry>::empty(),
    {
        Store { entries: Vec::new() }
    }

    /// Number of members of the time index.
    pub fn len(&self) -> (n: usize)
        ensures
            n == self@.len(),
            consistent(self@),
    {
        proof {
            use_type_invariant(self);
        }
        self.entries.len()
    }

    /// The value kept under `correlation_id`, if one is there.
    pub fn get(&self, correlation_id: u128) -> (value: Option<Payment>)
        ensures
            consistent(self@),
            value matches Some(p) ==> exists|i: int|
                0 <= i < self@.len() && (#[trigger] self@[i]).correlation_id == correlation_id
                    && self@[i].value == Some(p),
            value is None ==> forall|i: int|
                0 <= i < self@.len() && (#[trigger] self@[i]).correlation_id == correlation_id
                    ==> self@[i].value is None,
    {
        proof {
            use_type_invariant(self);
        }
        let mut i: usize = 0;
        while i < self.entries.len()
            invariant
                i <= self.entries.len(),
                consistent(self.entries@),
                forall|k: int|
                    0 <= k < i && (#[trigger] self.entries@[k]).correlation_id == correlation_id
                        ==> self.entries@[k].value is None,
            decreases self.entries.len() - i,
        {
            if self.entries[i].correlation_id == correlation_id && self.entries[i].value.is_some() {
                return self.entries[i].value;
            }
            i += 1;
        }
        None
    }

    /// The value under `correlation_id` expires: its index entry stays.
    pub fn expire(&mut self, correlation_id: u128)
        ensures
            final(self)@ == expired(old(self)@, correlation_id),
    {
        proof {
            use_type_invariant(&*self);
            law_expiry_keeps_consistent(self@, correlation_id);
        }
        let mut entries: Vec<Entry> = Vec::new();
        let mut i: usize = 0;
        while i < self.entries.len()
            invariant
                i <= self.entries.len(),
                self.entries@ == old(self)@,
                entries@.len() == i,
                forall|k: int|
                    0 <= k < i ==> entries@[k] == expired(old(self)@, correlation_id)[k],
            decreases self.entries.len() - i,
        {
            let e = self.entries[i];
            if e.correlation_id == correlation_id {
                entries.push(Entry { value: None, ..e });
            } else {
                entries.push(e);
            }
            i += 1;
        }
        assert(entries@ =~= expired(old(self)@, correlation_id));
        self.entries = entries;
    }

    /// The positions of the index members whose score lies in `[from, to]`.
    fn range_by_score(&self, from: u64, to: u64) -> (keys: Vec<usize>)
        ensures
            keys@ == positions_in_range(self@, from, to),
            self@.len() <= usize::MAX,
    {
        let mut keys: Vec<usize> = Vec::new();
        let mut i: usize = 0;
        while i < self.entries.len()
            invariant
                i <= self.entries.len(),
                keys@ == positions_in_range(self.entries@.take(i as int), from, to),
            decreases self.entries.len() - i,
        {
            assert(self.entries@.take(i + 1).drop_last() =~= self.entries@.take(i as int));
            if from <= self.entries[i].score && self.entries[i].score <= to {
                keys.push(i);
            }
            i += 1;
        }
        assert(self.entries@.take(i as int) =~= self.entries@);
        keys
    }

    /// The values under `keys[start..end]`, expired ones as `None`.
    fn mget(&self, keys: &Vec<usize>, start: usize, end: usize) -> (values: Vec<Option<Payment>>)
        requires
            start <= end <= keys.len(),
            forall|k: int| 0 <= k < keys.len() ==> (#[trigger] keys[k]) < self@.len(),
        ensures
            values@ == values_at(self@, keys@).subrange(start as int, end as int),
    {
        let mut values: Vec<Option<Payment>> = Vec::new();
        let mut k: usize = start;
        while k < end
            invariant
                start <= k <= end <= keys.len(),
                forall|k: int| 0 <= k < keys.len() ==> (#[trigger] keys[k]) < self.entries@.len(),
                values@ == values_at(self.entries@, keys@).subrange(start as int, k as int),
            decreases end - k,
        {
            values.push(self.entries[keys[k]].value);
            assert(values@ =~= values_at(self.entries@, keys@).subrange(start as int, k + 1));
            k += 1;
        }
        values
    }
}

/// Saves an accepted payment: keeps it under its correlation id, in place of
/// whatever was kept there, and enters it in the time index with its request
/// time as the score. The request time must have been assigned.
pub fn salvar_pagamento(pagamento: Payment, store: &mut Store)
    requires
        pagamento.requested_at is Some,
    ensures
        final(store)@ == saved(old(store)@, pagamento),
{
    proof {
        use_type_invariant(&*store);
        law_save_keeps_consistent(store@, pagamento);
    }
    let mut kept: Vec<Entry> = Vec::new();
    let mut i: usize = 0;
    while i < store.entries.len()
        invariant
            i <= store.entries.len(),
            store.entries@ == old(store)@,
            kept@ == without(store.entries@.take(i as int), pagamento.correlation_id),
        decreases store.entries.len() - i,
    {
        assert(store.entries@.take(i + 1).drop_last() =~= store.entries@.take(i as int));
        if store.entries[i].correlation_id != pagamento.correlation_id {
            kept.push(store.entries[i]);
        }
        i += 1;
    }
    assert(store.entries@.take(i as int) =~= store.entries@);
    kept.push(
        Entry {
            correlation_id: pagamento.correlation_id,
            score: score(pagamento.requested_at.unwrap()),
            value: Some(pagamento),
        },
    );
    store.entries = kept;
}

/// The summary over `[from, to]`: the index is scanned for the members whose
/// score lies in the range, their values are read in chunks of `CHUNK_SIZE`
/// keys, and each value that is still there is counted for its kind. A value
/// that has expired is passed over. The bounds are inclusive; a range with
/// `from` above `to` holds nothing.
pub fn coletar_entre_timestamp(store: &Store, from: u64, to: u64) -> (summary: (
    u64,
    String,
    u64,
    String,
))
    ensures
        summary.0 == count_of(store@, from, to, TipoProcessador::Default),
        summary.1@ == amount_text(sum_of(store@, from, to, TipoProcessador::Default)),
        summary.2 == count_of(store@, from, to, TipoProcessador::Fallback),
        summary.3@ == amount_text(sum_of(store@, from, to, TipoProcessador::Fallback)),
        (summary.0, summary.1@, summary.2, summary.3@) == summary_of(store@, from, to),
        consistent(store@),
{
    let keys = store.range_by_score(from, to);
    let ghost values = values_at(store@, keys@);
    proof {
        use_type_invariant(store);
        lemma_tally_of_range(store@, from, to, TipoProcessador::Default);
        lemma_tally_of_range(store@, from, to, TipoProcessador::Fallback);
    }
    let mut tally = Tally { default_count: 0, default_sum: 0, fallback_count: 0, fallback_sum: 0 };
    let mut done: usize = 0;
    while done < keys.len()
        invariant
            done <= keys.len(),
            values == values_at(store@, keys@),
            forall|k: int| 0 <= k < keys.len() ==> (#[trigger] keys[k]) < store@.len(),
            tally.of(values.take(done as int)),
        decreases keys.len() - done,
    {
        let end: usize = if keys.len() - done > CHUNK_SIZE {
            done + CHUNK_SIZE
        } else {
            keys.len()
        };
        let chunk = store.mget(&keys, done, end);
        let mut j: usize = 0;
        while j < chunk.len()
            invariant
                j <= chunk.len(),
                done + chunk.len() == end,
                end <= keys.len(),
                values.len() == keys.len(),
                chunk@ == values.subrange(done as int, end as int),
                tally.of(values.take(done + j)),
            decreases chunk.len() - j,
        {
            tally.add(chunk[j], Ghost(values.take(done + j)));
            assert(values.take(done + j).push(chunk@[j as int]) =~= values.take(done + j + 1));
            j += 1;
        }
        done = end;
    }
    assert(values.take(done as int) =~= values);
    (
        tally.default_count,
        format_amount(tally.default_sum),
        tally.fallback_count,
        format_amount(tally.fallback_sum),
    )
}

/// Erases the store: every value and the whole time index.
pub fn expurgar_todos_pagamentos(store: &mut Store)
    ensures
        final(store)@ == Seq::<Entry>::empty(),
{
    store.entries = Vec::new();
}

/// The summary of an empty store, as a purge leaves it, is zero payments and
/// the amount `0.0000` for both upstreams, whatever the range.
pub proof fn law_purged_summary_is_zero(from: u64, to: u64)
    ensures
        summary_of(Seq::<Entry>::empty(), from, to) == (0u64, "0.0000"@, 0u64, "0.0000"@),
{
    reveal_strlit("0.0000");
    assert(amount_text(0) =~= "0.0000"@);
}

/// No entry of `correlation_id` is left in `without`, and entries without
/// that id are all kept.
proof fn lemma_without(entries: Seq<Entry>, correlation_id: u128)
    ensures
        forall|i: int|
            0 <= i < without(entries, correlation_id).len() ==> (#[trigger] without(
                entries,
                correlation_id,
            )[i]).correlation_id != correlation_id,
        (forall|i: int|
            0 <= i < entries.len() ==> (#[trigger] entries[i]).correlation_id != correlation_id)
            ==> without(entries, correlation_id) == entries,
    decreases entries.len(),
{
    if entries.len() > 0 {
        lemma_without(entries.drop_last(), correlation_id);
        if forall|i: int|
            0 <= i < entries.len() ==> (#[trigger] entries[i]).correlation_id != correlation_id {
            assert forall|i: int| 0 <= i < entries.drop_last().len() implies (
            #[trigger] entries.drop_last()[i]).correlation_id != correlation_id by {
                assert(entries.drop_last()[i] == entries[i]);
            }
            assert(entries.drop_last().push(entries.last()) =~= entries);
        }
    }
}

/// Every entry of `without` is an entry of the store it was taken from, and
/// they stand in the order in which they stood there.
proof fn lemma_without_keeps_order(entries: Seq<Entry>, correlation_id: u128)
    ensures
        without(entries, correlation_id).len() <= entries.len(),
        forall|i: int|
            0 <= i < without(entries, correlation_id).len() ==> exists|k: int|
                i <= k < entries.len() && entries[k] == #[trigger] without(
                    entries,
                    correlation_id,
                )[i],
        consistent(entries) ==> consistent(without(entries, correlation_id)),
    decreases entries.len(),
{
    if entries.len() > 0 {
        let rest = entries.drop_last();
        let kept = without(rest, correlation_id);
        lemma_without_keeps_order(rest, correlation_id);
        let all = without(entries, correlation_id);
        assert forall|i: int| 0 <= i < all.len() implies exists|k: int|
            i <= k < entries.len() && entries[k] == #[trigger] all[i] by {
            if i < kept.len() {
                let k = choose|k: int| i <= k < rest.len() && rest[k] == kept[i];
                assert(entries[k] == all[i]);
            } else {
                assert(entries[entries.len() - 1] == all[i]);
            }
        }
        if consistent(entries) {
            assert(consistent(rest)) by {
                assert forall|i: int, j: int| 0 <= i < j < rest.len() implies (
                #[trigger] rest[i]).correlation_id != (#[trigger] rest[j]).correlation_id by {
                    assert(rest[i] == entries[i] && rest[j] == entries[j]);
                }
                assert forall|i: int| 0 <= i < rest.len() implies ((
                #[trigger] rest[i]).value matches Some(p) ==> {
                    &&& p.correlation_id == rest[i].correlation_id
                    &&& p.requested_at matches Some(t)
                    &&& rest[i].score == score_of(t)
                }) by {
                    assert(rest[i] == entries[i]);
                }
            }
            if entries.last().correlation_id != correlation_id {
                assert forall|i: int, j: int| 0 <= i < j < all.len() implies (
                #[trigger] all[i]).correlation_id != (#[trigger] all[j]).correlation_id by {
                    if j == all.len() - 1 {
                        let k = choose|k: int| i <= k < rest.len() && rest[k] == kept[i];
                        assert(entries[k] == rest[k]);
                        assert(entries[entries.len() - 1] == all[j]);
                    }
                }
            }
        }
    }
}

/// A save leaves no correlation id twice in the store and enters the payment
/// with the score of its request time.
pub proof fn law_save_keeps_consistent(entries: Seq<Entry>, p: Payment)
    requires
        consistent(entries),
        p.requested_at is Some,
    ensures
        consistent(saved(entries, p)),
{
    let kept = without(entries, p.correlation_id);
    lemma_without(entries, p.correlation_id);
    lemma_without_keeps_order(entries, p.correlation_id);
}

/// The expiry of a value leaves the store consistent.
pub proof fn law_expiry_keeps_consistent(entries: Seq<Entry>, correlation_id: u128)
    requires
        consistent(entries),
    ensures
        consistent(expired(entries, correlation_id)),
{
}

/// In a consistent store the summary counts by request time: an entry is
/// counted for `tipo` exactly when its value is there, bears that kind and has
/// a request time whose score lies in the range.
pub proof fn law_counted_by_request_time(
    entries: Seq<Entry>,
    i: int,
    from: u64,
    to: u64,
    tipo: TipoProcessador,
)
    requires
        consistent(entries),
        0 <= i < entries.len(),
    ensures
        counts(entries[i], from, to, tipo) <==> {
            &&& entries[i].value matches Some(p)
            &&& p.tipo == Some(tipo)
            &&& p.requested_at matches Some(t)
            &&& from <= score_of(t) <= to
        },
{
}

/// Saving again what was saved changes nothing: the store, and with it every
/// summary, is as after the first save.
pub proof fn law_resave_changes_nothing(entries: Seq<Entry>, p: Payment, from: u64, to: u64)
    ensures
        saved(saved(entries, p), p) == saved(entries, p),
        summary_of(saved(saved(entries, p), p), from, to) == summary_of(saved(entries, p), from, to),
{
    let rest = without(entries, p.correlation_id);
    lemma_without(entries, p.correlation_id);
    lemma_without(rest, p.correlation_id);
    assert(rest.push(entry_of(p)).drop_last() =~= rest);
}

/// A payment saved with the request time `t` and the kind `tipo` is counted
/// by every summary whose range holds the score of `t`, once and with its
/// amount, beside the other payments of the store. For a `t` that is not
/// before the epoch the score is `t` itself.
pub proof fn law_saved_is_counted(
    entries: Seq<Entry>,
    p: Payment,
    t: i64,
    tipo: TipoProcessador,
    from: u64,
    to: u64,
)
    requires
        p.requested_at == Some(t),
        p.tipo == Some(tipo),
        from <= score_of(t) <= to,
    ensures
        t >= 0 ==> score_of(t) == t,
        count_of(saved(entries, p), from, to, tipo) == count_of(
            without(entries, p.correlation_id),
            from,
            to,
            tipo,
        ) + 1,
        sum_of(saved(entries, p), from, to, tipo) == sum_of(
            without(entries, p.correlation_id),
            from,
            to,
            tipo,
        ) + p.amount,
{
    let rest = without(entries, p.correlation_id);
    assert(rest.push(entry_of(p)).drop_last() =~= rest);
}

} // verus!
