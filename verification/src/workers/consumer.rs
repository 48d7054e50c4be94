//! Dispatch of one payment: which upstream an attempt goes to, and how the
//! dispatch advances on each thing that happens to it.
//!
//! The program around this module performs the actions (the POST, the sleep,
//! the save) and reports back what happened; every decision is taken here.

use vstd::prelude::*;
use crate::api::http::{accepted, is_success};
use crate::appstate::{slot_of, AppState, AppStateView};
use crate::models::payment::{now_micros, Payment, PaymentRequest};
use crate::models::processor::TipoProcessador;

verus! {

/// The per-payment bound on dispatch effort.
#[derive(Debug, Clone, Copy, PartialEq, Eq, Structural)]
pub struct RetryBudget {
    pub max_attempts: u8,
    pub initial_delay_ms: u64,
    pub max_delay_ms: u64,
}

impl RetryBudget {
    /// The standard budget: 40 attempts, a first delay of 100 ms, delays
    /// capped at 700 ms.
    pub open spec fn defaults() -> RetryBudget {
        RetryBudget { max_attempts: 40, initial_delay_ms: 100, max_delay_ms: 700 }
    }

    /// Gives the standard budget.
    pub fn standard() -> (b: RetryBudget)
        ensures
            b == RetryBudget::defaults(),
    {
        RetryBudget { max_attempts: 40, initial_delay_ms: 100, max_delay_ms: 700 }
    }
}

/// The attempt from which the fallback is eligible: the share `pct` percent
/// of `max_attempts`, rounded down, and no more than 255.
pub open spec fn threshold_of(max_attempts: u8, pct: u8) -> int {
    let share = (max_attempts as int * pct as int) / 100;
    if share > 255 {
        255
    } else {
        share
    }
}

/// Computes `threshold_of`. With the standard budget and 75 percent the
/// fallback is eligible from attempt 30 on.
pub fn fallback_threshold(max_attempts: u8, pct: u8) -> (t: u8)
    ensures
        t == threshold_of(max_attempts, pct),
        pct <= 100 ==> t <= max_attempts,
{
    assert(max_attempts as int * pct as int <= 255 * 255) by (nonlinear_arith)
        requires
            max_attempts <= 255,
            pct <= 255,
    ;
    assert(pct <= 100 ==> max_attempts as int * pct as int <= max_attempts as int * 100)
        by (nonlinear_arith);
    let product: u32 = max_attempts as u32 * pct as u32;
    let share: u32 = product / 100;
    if share > 255 {
        255
    } else {
        share as u8
    }
}

/// The upstream chosen for an attempt: the preferred one whenever it is not
/// reported failing; else the fallback, if the attempt has reached the
/// threshold and the fallback is not reported failing; else none.
pub open spec fn chosen(
    default_failing: bool,
    fallback_failing: bool,
    attempt: u8,
    fallback_threshold: u8,
) -> TipoProcessador {
    if !default_failing {
        TipoProcessador::Default
    } else if attempt >= fallback_threshold && !fallback_failing {
        TipoProcessador::Fallback
    } else {
        TipoProcessador::Nenhum
    }
}

/// Chooses the upstream for attempt `retry` from the registry as it stands,
/// and gives its slot with its kind. Reads the registry only.
pub fn escolher_processador(state: &AppState, retry: u8, fallback_threshold: u8) -> (choice: (
    Option<usize>,
    TipoProcessador,
))
    ensures
        choice.1 == chosen(
            state.processors_default.failing,
            state.processors_fallback.failing,
            retry,
            fallback_threshold,
        ),
        choice.0 == slot_of(choice.1),
        !state.processors_default.failing ==> choice.1 == TipoProcessador::Default,
        choice.1 == TipoProcessador::Fallback <==> retry >= fallback_threshold
            && state.processors_default.failing && !state.processors_fallback.failing,
{
    if !state.processors_default.failing {
        return (Some(0), TipoProcessador::Default);
    }
    if retry >= fallback_threshold {
        if !state.processors_fallback.failing {
            return (Some(1), TipoProcessador::Fallback);
        }
    }
    (None, TipoProcessador::Nenhum)
}

/// While the preferred upstream is reported healthy it is chosen, at every
/// attempt and whatever the threshold.
pub proof fn law_default_preferred(fallback_failing: bool, attempt: u8, fallback_threshold: u8)
    ensures
        chosen(false, fallback_failing, attempt, fallback_threshold) == TipoProcessador::Default,
{
}

/// The fallback is chosen exactly when the attempt has reached the threshold,
/// the preferred upstream is reported failing and the fallback is reported
/// healthy.
pub proof fn law_fallback_only_when_due(
    default_failing: bool,
    fallback_failing: bool,
    attempt: u8,
    fallback_threshold: u8,
)
    ensures
        chosen(default_failing, fallback_failing, attempt, fallback_threshold)
            == TipoProcessador::Fallback <==> attempt >= fallback_threshold && default_failing
            && !fallback_failing,
{
}

/// How a dispatch ended.
#[derive(Debug, Clone, Copy, PartialEq, Eq, Structural)]
pub enum Outcome {
    /// An upstream accepted the payment.
    Success,
    /// The retry budget ran out; the payment is dropped.
    Exhausted,
}

/// Where a dispatch stands between two things that happen to it.
///
/// Selection takes no time and is no resting place: a dispatch that selects
/// is at once either `Sending` or in `Backoff`.
#[derive(Debug, Clone, Copy, PartialEq, Eq, Structural)]
pub enum Phase {
    /// Nothing has happened yet; the request time is still to be assigned.
    Init,
    /// A POST to the upstream of this kind is under way.
    Sending(TipoProcessador),
    /// The accepted payment is being saved.
    PersistOnSuccess,
    /// The dispatch sleeps before its next attempt.
    Backoff,
    Terminal(Outcome),
}

/// What happened to a dispatch.
#[derive(Debug, Clone, Copy, PartialEq, Eq, Structural)]
pub enum Event {
    /// The dispatch was started, the clock reading `now` microseconds.
    Started { now: i64 },
    /// The upstream answered the POST with this HTTP status.
    Replied { status: u16 },
    /// The POST failed in transport: no answer came.
    Unreachable,
    /// The sleep is over.
    Slept,
    /// The save has ended, well or not.
    Saved,
}

/// What the program is to do next for a dispatch.
#[derive(Debug, Clone, Copy, PartialEq, Eq, Structural)]
pub enum Action {
    /// POST `request` to the upstream of kind `tipo`, then report `Replied`
    /// or `Unreachable`.
    Post { tipo: TipoProcessador, request: PaymentRequest },
    /// Sleep for `ms` milliseconds, then report `Slept`.
    Sleep { ms: u64 },
    /// Save `payment`, then report `Saved`.
    Save { payment: Payment },
    /// The dispatch is over.
    Done { outcome: Outcome },
    /// The event does not belong to the phase; nothing is to be done for it.
    Ignore,
}

/// The health of the two upstreams as one selection reads it.
pub struct Health {
    pub default_failing: bool,
    pub fallback_failing: bool,
}

impl AppStateView {
    /// The health that a selection reads from this state.
    pub open spec fn health(self) -> Health {
        Health {
            default_failing: self.processors_default.failing,
            fallback_failing: self.processors_fallback.failing,
        }
    }
}

/// A dispatch as plain values.
pub struct DispatchView {
    pub payment: Payment,
    pub phase: Phase,
    /// Number of backoffs behind this dispatch.
    pub attempt: u8,
    /// Length of the next sleep.
    pub delay_ms: u64,
    pub budget: RetryBudget,
    pub fallback_threshold: u8,
}

/// One move of a dispatch: its next state, the upstream that the move marks
/// as failing (`Nenhum` for none) and the action it asks for.
pub struct Move {
    pub state: DispatchView,
    pub mark: TipoProcessador,
    pub action: Action,
}

/// The delay after `delay_ms`: twice as long, capped at `max_delay_ms`.
pub open spec fn next_delay(delay_ms: u64, max_delay_ms: u64) -> u64 {
    if 2 * delay_ms <= max_delay_ms {
        (2 * delay_ms) as u64
    } else {
        max_delay_ms
    }
}

impl DispatchView {
    /// A dispatch of `payment` on which nothing has happened yet.
    pub open spec fn init(payment: Payment, budget: RetryBudget, fallback_threshold: u8)
        -> DispatchView {
        DispatchView {
            payment,
            phase: Phase::Init,
            attempt: 0,
            delay_ms: budget.initial_delay_ms,
            budget,
            fallback_threshold,
        }
    }

    /// What holds of every dispatch that was begun and moved by this module.
    pub open spec fn wf(self) -> bool {
        &&& self.phase == Phase::Init ==> self.attempt == 0
        &&& self.phase != Phase::Init ==> self.payment.requested_at is Some
        &&& self.phase matches Phase::Sending(tipo) ==> tipo != TipoProcessador::Nenhum
        &&& (self.phase == Phase::Backoff || self.phase is Sending) ==> self.attempt == 0
            || self.attempt < self.budget.max_attempts
    }

    /// The selection: to the chosen upstream, or to sleep where none is
    /// chosen.
    pub open spec fn select(self, health: Health) -> Move {
        let tipo = chosen(
            health.default_failing,
            health.fallback_failing,
            self.attempt,
            self.fallback_threshold,
        );
        if tipo == TipoProcessador::Nenhum {
            Move {
                state: DispatchView { phase: Phase::Backoff, ..self },
                mark: TipoProcessador::Nenhum,
                action: Action::Sleep { ms: self.delay_ms },
            }
        } else {
            Move {
                state: DispatchView { phase: Phase::Sending(tipo), ..self },
                mark: TipoProcessador::Nenhum,
                action: Action::Post { tipo, request: self.payment.request() },
            }
        }
    }

    /// The move that stays where it is.
    pub open spec fn stay(self, action: Action) -> Move {
        Move { state: self, mark: TipoProcessador::Nenhum, action }
    }

    /// After a failed POST to the upstream of kind `tipo`: mark it and sleep.
    pub open spec fn fail(self, tipo: TipoProcessador) -> Move {
        Move {
            state: DispatchView { phase: Phase::Backoff, ..self },
            mark: tipo,
            action: Action::Sleep { ms: self.delay_ms },
        }
    }

    /// The move of a dispatch in this state on `event`, the registry reading
    /// `health`.
    ///
    /// * `Init`, on `Started`: the request time is assigned unless it was
    ///   there, then the selection runs.
    /// * `Sending`, on a reply in the range 200 to 299: the payment takes the
    ///   kind of the upstream and is to be saved.
    /// * `Sending`, on another reply or none: the upstream is marked as
    ///   failing and the dispatch sleeps.
    /// * `Backoff`, on `Slept`: the delay doubles up to its cap and the
    ///   attempt counter goes up; with the budget spent the dispatch ends as
    ///   exhausted, else the selection runs.
    /// * `PersistOnSuccess`, on `Saved`: the dispatch ends as a success.
    /// * `Terminal`: stays, whatever happens.
    /// * Any other event is ignored.
    pub open spec fn step(self, health: Health, event: Event) -> Move {
        match self.phase {
            Phase::Init => match event {
                Event::Started { now } => DispatchView {
                    payment: self.payment.stamped(now),
                    ..self
                }.select(health),
                _ => self.stay(Action::Ignore),
            },
            Phase::Sending(tipo) => match event {
                Event::Replied { status } => if is_success(status) {
                    let payment = Payment { tipo: Some(tipo), ..self.payment };
                    Move {
                        state: DispatchView { payment, phase: Phase::PersistOnSuccess, ..self },
                        mark: TipoProcessador::Nenhum,
                        action: Action::Save { payment },
                    }
                } else {
                    self.fail(tipo)
                },
                Event::Unreachable => self.fail(tipo),
                _ => self.stay(Action::Ignore),
            },
            Phase::Backoff => match event {
                Event::Slept => {
                    let attempt = (self.attempt + 1) as u8;
                    let rested = DispatchView {
                        attempt,
                        delay_ms: next_delay(self.delay_ms, self.budget.max_delay_ms),
                        ..self
                    };
                    if attempt >= self.budget.max_attempts {
                        Move {
                            state: DispatchView {
                                phase: Phase::Terminal(Outcome::Exhausted),
                                ..rested
                            },
                            mark: TipoProcessador::Nenhum,
                            action: Action::Done { outcome: Outcome::Exhausted },
                        }
                    } else {
                        rested.select(health)
                    }
                },
                _ => self.stay(Action::Ignore),
            },
            Phase::PersistOnSuccess => match event {
                Event::Saved => Move {
                    state: DispatchView { phase: Phase::Terminal(Outcome::Success), ..self },
                    mark: TipoProcessador::Nenhum,
                    action: Action::Done { outcome: Outcome::Success },
                },
                _ => self.stay(Action::Ignore),
            },
            Phase::Terminal(outcome) => self.stay(Action::Done { outcome }),
        }
    }
}

/// A dispatch of one payment.
pub struct Dispatch {
    payment: Payment,
    phase: Phase,
    attempt: u8,
    delay_ms: u64,
    budget: RetryBudget,
    fallback_threshold: u8,
}

impl View for Dispatch {
    type V = DispatchView;

    closed spec fn view(&self) -> DispatchView {
        DispatchView {
            payment: self.payment,
            phase: self.phase,
            attempt: self.attempt,
            delay_ms: self.delay_ms,
            budget: self.budget,
            fallback_threshold: self.fallback_threshold,
        }
    }
}

impl Dispatch {
    /// Every dispatch is well formed.
    #[verifier::type_invariant]
    spec fn inv(self) -> bool {
        self@.wf()
    }

    /// A dispatch of `payment` on which nothing has happened yet.
    pub fn new(payment: Payment, budget: RetryBudget, fallback_threshold: u8) -> (d: Dispatch)
        ensures
            d@ == DispatchView::init(payment, budget, fallback_threshold),
            d@.wf(),
    {
        Dispatch {
            payment,
            phase: Phase::Init,
            attempt: 0,
            delay_ms: budget.initial_delay_ms,
            budget,
            fallback_threshold,
        }
    }

    /// The payment as it stands: with its request time once the dispatch has
    /// started, and with its kind once an upstream has accepted it.
    pub fn payment(&self) -> (p: Payment)
        ensures
            p == self@.payment,
    {
        self.payment
    }

    /// Where the dispatch stands.
    pub fn phase(&self) -> (p: Phase)
        ensures
            p == self@.phase,
    {
        self.phase
    }

    /// Number of backoffs behind this dispatch.
    pub fn attempt(&self) -> (a: u8)
        ensures
            a == self@.attempt,
    {
        self.attempt
    }

    /// Length of the next sleep, in milliseconds.
    pub fn delay_ms(&self) -> (ms: u64)
        ensures
            ms == self@.delay_ms,
    {
        self.delay_ms
    }

    /// Runs the selection and takes the move it gives.
    fn select(&mut self, state: &AppState) -> (action: Action)
        requires
            old(self).payment.requested_at is Some,
            old(self).attempt == 0 || old(self).attempt < old(self).budget.max_attempts,
        ensures
            final(self)@ == old(self)@.select(state@.health()).state,
            action == old(self)@.select(state@.health()).action,
    {
        let choice = escolher_processador(state, self.attempt, self.fallback_threshold);
        match choice.1 {
            TipoProcessador::Nenhum => {
                self.phase = Phase::Backoff;
                Action::Sleep { ms: self.delay_ms }
            },
            tipo => {
                self.phase = Phase::Sending(tipo);
                Action::Post { tipo, request: self.payment.to_payment_request() }
            },
        }
    }

    /// Marks the upstream of kind `tipo` as failing and goes to sleep.
    fn fail(&mut self, state: &mut AppState, tipo: TipoProcessador) -> (action: Action)
        requires
            old(self).phase is Sending,
        ensures
            final(self)@ == old(self)@.fail(tipo).state,
            action == old(self)@.fail(tipo).action,
            final(state)@ == old(state)@.marked_failing(tipo),
    {
        proof {
            use_type_invariant(&*self);
        }
        state.mark_failing(tipo);
        self.phase = Phase::Backoff;
        Action::Sleep { ms: self.delay_ms }
    }

    /// Takes the move of this dispatch on `event`: advances the dispatch,
    /// marks in the registry the upstream that the move found failing, and
    /// gives the action to perform next.
    pub fn step(&mut self, state: &mut AppState, event: Event) -> (action: Action)
        ensures
            old(self)@.wf(),
            final(self)@ == old(self)@.step(old(state)@.health(), event).state,
            action == old(self)@.step(old(state)@.health(), event).action,
            final(state)@ == old(state)@.marked_failing(
                old(self)@.step(old(state)@.health(), event).mark,
            ),
            final(self)@.wf(),
    {
        proof {
            use_type_invariant(&*self);
        }
        match self.phase {
            Phase::Init => match event {
                Event::Started { now } => {
                    if self.payment.requested_at.is_none() {
                        self.payment.requested_at = Some(now);
                    }
                    self.select(state)
                },
                _ => Action::Ignore,
            },
            Phase::Sending(tipo) => match event {
                Event::Replied { status } => {
                    if accepted(status) {
                        self.payment.tipo = Some(tipo);
                        self.phase = Phase::PersistOnSuccess;
                        Action::Save { payment: self.payment }
                    } else {
                        self.fail(state, tipo)
                    }
                },
                Event::Unreachable => self.fail(state, tipo),
                _ => Action::Ignore,
            },
            Phase::Backoff => match event {
                Event::Slept => {
                    let attempt: u8 = self.attempt + 1;
                    self.delay_ms = if self.delay_ms <= self.budget.max_delay_ms / 2 {
                        2 * self.delay_ms
                    } else {
                        self.budget.max_delay_ms
                    };
                    if attempt >= self.budget.max_attempts {
                        self.phase = Phase::Terminal(Outcome::Exhausted);
                        self.attempt = attempt;
                        Action::Done { outcome: Outcome::Exhausted }
                    } else {
                        self.attempt = attempt;
                        self.select(state)
                    }
                },
                _ => Action::Ignore,
            },
            Phase::PersistOnSuccess => match event {
                Event::Saved => {
                    self.phase = Phase::Terminal(Outcome::Success);
                    Action::Done { outcome: Outcome::Success }
                },
                _ => Action::Ignore,
            },
            Phase::Terminal(outcome) => Action::Done { outcome },
        }
    }
}

/// The first move of the dispatch of `payment` in an instance whose state is
/// `state`, the clock reading `now`: a new dispatch under the standard budget,
/// with the fallback threshold that the state's percentage gives, is started.
pub open spec fn first_move(payment: Payment, state: AppStateView, now: i64) -> Move {
    DispatchView::init(
        payment,
        RetryBudget::defaults(),
        threshold_of(RetryBudget::defaults().max_attempts, state.retry_default_percentage) as u8,
    ).step(state.health(), Event::Started { now })
}

/// Begins the dispatch of `payment`: reads the clock, assigns the request
/// time and runs the first selection.
///
/// The result is `first_move` for the instant that the clock gave, whatever
/// that was; `Dispatch::step` takes the same move for an instant that is
/// handed to it.
pub fn processa_pagamento(state: &mut AppState, payment: Payment) -> (begun: (Dispatch, Action))
    ensures
        exists|now: i64|
            begun.0@ == (#[trigger] first_move(payment, old(state)@, now)).state && begun.1
                == first_move(payment, old(state)@, now).action,
        payment.requested_at is Some ==> begun.0@.payment == payment,
        begun.0@.wf(),
        final(state)@ == old(state)@,
{
    let budget = RetryBudget::standard();
    let threshold: u8 = fallback_threshold(budget.max_attempts, state.retry_default_percentage);
    let mut dispatch = Dispatch::new(payment, budget, threshold);
    let now: i64 = now_micros();
    let action = dispatch.step(state, Event::Started { now });
    assert(dispatch@ == first_move(payment, old(state)@, now).state);
    (dispatch, action)
}

/// Takes one payload off a worker's queue: a payload that did not parse is
/// dropped; from one that did, the dispatch of a payment with its correlation
/// id and amount, and with no request time and no processor, is begun as
/// `processa_pagamento` does.
pub fn worker_processa_pagamento(state: &mut AppState, payload: Option<Payment>) -> (begun: Option<
    (Dispatch, Action),
>)
    ensures
        payload is None ==> begun is None,
        payload matches Some(parsed) ==> begun matches Some(pair) && pair.0@.wf() && exists|
            now: i64,
        |
            {
                let first = #[trigger] first_move(
                    Payment {
                        correlation_id: parsed.correlation_id,
                        amount: parsed.amount,
                        requested_at: None,
                        tipo: None,
                    },
                    old(state)@,
                    now,
                );
                pair.0@ == first.state && pair.1 == first.action
            },
        final(state)@ == old(state)@,
{
    match payload {
        None => None,
        Some(parsed) => {
            let payment = Payment::fresh(parsed.correlation_id, parsed.amount);
            Some(processa_pagamento(state, payment))
        },
    }
}

/// One thing that happens to a dispatch: the event, the instant at which the
/// dispatch takes it, in microseconds since the Unix epoch, and the health
/// that its move reads. Between two moves anything may have written to the
/// registry.
pub struct Input {
    pub at: i64,
    pub health: Health,
    pub event: Event,
}

/// Whether the clock never went back along these inputs: none is taken before
/// an earlier one, and a start is not taken before the instant it bears.
pub open spec fn clock_never_went_back(inputs: Seq<Input>) -> bool {
    &&& forall|i: int, j: int|
        0 <= i <= j < inputs.len() ==> (#[trigger] inputs[i]).at <= (#[trigger] inputs[j]).at
    &&& forall|i: int|
        0 <= i < inputs.len() ==> ((#[trigger] inputs[i]).event matches Event::Started { now }
            ==> now <= inputs[i].at)
}

/// The state of a dispatch that began as `start` after `inputs`, in order.
pub open spec fn run(start: DispatchView, inputs: Seq<Input>) -> DispatchView
    decreases inputs.len(),
{
    if inputs.len() == 0 {
        start
    } else {
        run(start, inputs.drop_last()).step(inputs.last().health, inputs.last().event).state
    }
}

/// The kinds of the upstreams that answered a POST of the run with a status
/// in the range 200 to 299, in order.
pub open spec fn acceptors(start: DispatchView, inputs: Seq<Input>) -> Seq<TipoProcessador>
    decreases inputs.len(),
{
    if inputs.len() == 0 {
        Seq::empty()
    } else {
        let before = run(start, inputs.drop_last());
        let earlier = acceptors(start, inputs.drop_last());
        match (before.phase, inputs.last().event) {
            (Phase::Sending(tipo), Event::Replied { status }) => if is_success(status) {
                earlier.push(tipo)
            } else {
                earlier
            },
            _ => earlier,
        }
    }
}

/// Whether the dispatch has been accepted by an upstream.
pub open spec fn succeeded(phase: Phase) -> bool {
    phase == Phase::PersistOnSuccess || phase == Phase::Terminal(Outcome::Success)
}

/// Every move keeps a dispatch well formed.
pub proof fn law_step_keeps_wf(v: DispatchView, health: Health, event: Event)
    requires
        v.wf(),
    ensures
        v.step(health, event).state.wf(),
{
}

/// A dispatch of a payment that entered the gateway has succeeded exactly
/// when one upstream, the preferred one or the fallback, has answered a POST
/// with success; no second one ever does, and the payment then bears the kind
/// of that upstream. Until then the payment bears no kind.
pub proof fn law_success_has_one_acceptor(
    correlation_id: u128,
    amount: i64,
    budget: RetryBudget,
    fallback_threshold: u8,
    inputs: Seq<Input>,
)
    ensures
        ({
            let start = DispatchView::init(
                Payment { correlation_id, amount, requested_at: None, tipo: None },
                budget,
                fallback_threshold,
            );
            let end = run(start, inputs);
            let who = acceptors(start, inputs);
            &&& end.wf()
            &&& succeeded(end.phase) ==> who.len() == 1 && (who[0] == TipoProcessador::Default
                || who[0] == TipoProcessador::Fallback) && end.payment.tipo == Some(who[0])
            &&& !succeeded(end.phase) ==> who.len() == 0 && end.payment.tipo is None
        }),
    decreases inputs.len(),
{
    if inputs.len() > 0 {
        law_success_has_one_acceptor(
            correlation_id,
            amount,
            budget,
            fallback_threshold,
            inputs.drop_last(),
        );
    }
}

/// A dispatch keeps what it was begun with: the correlation id and the amount
/// of its payment, its budget and its threshold. It ends as exhausted only
/// with its budget spent, and then its payment bears no kind.
pub proof fn law_dispatch_keeps_its_payment(
    correlation_id: u128,
    amount: i64,
    budget: RetryBudget,
    fallback_threshold: u8,
    inputs: Seq<Input>,
)
    ensures
        ({
            let start = DispatchView::init(
                Payment { correlation_id, amount, requested_at: None, tipo: None },
                budget,
                fallback_threshold,
            );
            let end = run(start, inputs);
            &&& end.payment.correlation_id == correlation_id
            &&& end.payment.amount == amount
            &&& end.budget == budget
            &&& end.fallback_threshold == fallback_threshold
            &&& end.phase == Phase::Terminal(Outcome::Exhausted) ==> end.attempt
                >= budget.max_attempts && end.payment.tipo is None
        }),
    decreases inputs.len(),
{
    if inputs.len() > 0 {
        law_dispatch_keeps_its_payment(
            correlation_id,
            amount,
            budget,
            fallback_threshold,
            inputs.drop_last(),
        );
        law_success_has_one_acceptor(
            correlation_id,
            amount,
            budget,
            fallback_threshold,
            inputs.drop_last(),
        );
    }
}

/// The payment that a move hands over to be saved is the payment of the
/// dispatch after the move, and bears the kind of the upstream that the
/// dispatch was sending to.
pub proof fn law_saved_payment_bears_acceptor(v: DispatchView, health: Health, event: Event)
    ensures
        v.step(health, event).action matches Action::Save { payment } ==> {
            &&& v.phase matches Phase::Sending(tipo)
            &&& payment.tipo == Some(tipo)
            &&& payment == v.step(health, event).state.payment
            &&& v.step(health, event).state.phase == Phase::PersistOnSuccess
        },
{
}

/// A request time, once assigned, stays: no move replaces it.
pub proof fn law_request_time_kept(v: DispatchView, health: Health, event: Event)
    requires
        v.payment.requested_at is Some,
    ensures
        v.step(health, event).state.payment.requested_at == v.payment.requested_at,
{
}

/// In the dispatch of a payment that entered the gateway, whatever is posted
/// upstream bears the instant that the clock read when the dispatch was
/// started, and that start came no later than the move that asks for the
/// POST: the request time is assigned before the first attempt.
pub proof fn law_request_time_precedes_post(
    correlation_id: u128,
    amount: i64,
    budget: RetryBudget,
    fallback_threshold: u8,
    inputs: Seq<Input>,
)
    requires
        inputs.len() > 0,
    ensures
        ({
            let start = DispatchView::init(
                Payment { correlation_id, amount, requested_at: None, tipo: None },
                budget,
                fallback_threshold,
            );
            let before = run(start, inputs.drop_last());
            let last = before.step(inputs.last().health, inputs.last().event);
            last.action matches Action::Post { request, .. } ==> {
                &&& last.state.payment.requested_at == Some(request.requested_at)
                &&& exists|j: int|
                    0 <= j < inputs.len() && (#[trigger] inputs[j]).event == (Event::Started {
                        now: request.requested_at,
                    })
            }
        }),
{
    let start = DispatchView::init(
        Payment { correlation_id, amount, requested_at: None, tipo: None },
        budget,
        fallback_threshold,
    );
    lemma_started_before(start, inputs.drop_last());
    let before = run(start, inputs.drop_last());
    let last = before.step(inputs.last().health, inputs.last().event);
    if last.action is Post {
        if before.phase == Phase::Init {
            assert(inputs[inputs.len() - 1] == inputs.last());
        } else {
            let j = choose|j: int|
                0 <= j < inputs.drop_last().len() && (#[trigger] inputs.drop_last()[j]).event == (
                Event::Started { now: before.payment.requested_at->0 });
            assert(inputs[j] == inputs.drop_last()[j]);
        }
    }
}

/// With a clock that never goes back, the request time of a payment that
/// entered the gateway is not after the instant of the move that asks for a
/// POST of it, and so not after the POST itself, the first one included.
pub proof fn law_request_time_not_after_post(
    correlation_id: u128,
    amount: i64,
    budget: RetryBudget,
    fallback_threshold: u8,
    inputs: Seq<Input>,
)
    requires
        inputs.len() > 0,
        clock_never_went_back(inputs),
    ensures
        ({
            let start = DispatchView::init(
                Payment { correlation_id, amount, requested_at: None, tipo: None },
                budget,
                fallback_threshold,
            );
            let before = run(start, inputs.drop_last());
            let last = before.step(inputs.last().health, inputs.last().event);
            last.action matches Action::Post { request, .. } ==> request.requested_at
                <= inputs.last().at
        }),
{
    law_request_time_precedes_post(correlation_id, amount, budget, fallback_threshold, inputs);
    let start = DispatchView::init(
        Payment { correlation_id, amount, requested_at: None, tipo: None },
        budget,
        fallback_threshold,
    );
    let before = run(start, inputs.drop_last());
    let last = before.step(inputs.last().health, inputs.last().event);
    if let Action::Post { request, .. } = last.action {
        let j = choose|j: int|
            0 <= j < inputs.len() && (#[trigger] inputs[j]).event == (Event::Started {
                now: request.requested_at,
            });
        assert(inputs[j].at <= inputs[inputs.len() - 1].at);
    }
}

/// Along a run that began without a request time, the dispatch is in `Init`
/// without one, or past it with the instant of a `Started` of the run.
proof fn lemma_started_before(start: DispatchView, inputs: Seq<Input>)
    requires
        start.phase == Phase::Init,
        start.payment.requested_at is None,
    ensures
        ({
            let end = run(start, inputs);
            if end.phase == Phase::Init {
                end.payment.requested_at is None
            } else {
                &&& end.payment.requested_at is Some
                &&& exists|j: int|
                    0 <= j < inputs.len() && (#[trigger] inputs[j]).event == (Event::Started {
                        now: end.payment.requested_at->0,
                    })
            }
        }),
    decreases inputs.len(),
{
    if inputs.len() > 0 {
        lemma_started_before(start, inputs.drop_last());
        let before = run(start, inputs.drop_last());
        let end = run(start, inputs);
        if before.phase == Phase::Init {
            if end.phase != Phase::Init {
                assert(inputs[inputs.len() - 1] == inputs.last());
            }
        } else {
            let j = choose|j: int|
                0 <= j < inputs.drop_last().len() && (#[trigger] inputs.drop_last()[j]).event == (
                Event::Started { now: before.payment.requested_at->0 });
            assert(inputs[j] == inputs.drop_last()[j]);
        }
    }
}

} // verus!
