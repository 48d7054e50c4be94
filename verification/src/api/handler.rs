//! The routes of the gateway: how a payment is admitted, and what the
//! summary and the purge answer.

use vstd::prelude::*;
use crate::api::redis::{
    coletar_entre_timestamp, count_of, amount_text, expurgar_todos_pagamentos, sum_of, Entry,
    Store,
};
use crate::appstate::{AppState, AppStateView};
use crate::models::data_range::DateRangeParams;
use crate::models::payment::Payment;
use crate::models::processor::TipoProcessador;
use crate::models::summary::{decimal_from_str, DecimalParts, PaymentSummary, Summary};

verus! {

/// Status of a request that was taken.
pub const OK: u16 = 200;

/// Status of a payment whose body did not parse.
pub const BAD_REQUEST: u16 = 400;

/// Status of a request that the store failed.
pub const INTERNAL_SERVER_ERROR: u16 = 500;

/// Status of a request that met an overloaded gateway.
pub const SERVICE_UNAVAILABLE: u16 = 503;

/// Number of dispatches that may run on the fast path at a time.
pub const FAST_PATH_PERMITS: usize = 100;

/// Number of bodies that the queue of one worker holds.
pub const QUEUE_CAPACITY: usize = 300;

/// Requests that may wait for the summary and purge routes.
pub const SUMMARY_BUFFER: usize = 16;

/// Requests that the summary and purge routes serve at a time.
pub const SUMMARY_CONCURRENCY: usize = 16;

/// Requests that may wait for `POST /payments`.
pub const PAYMENTS_BUFFER: usize = 6144;

/// Requests that `POST /payments` serves at a time.
pub const PAYMENTS_CONCURRENCY: usize = 800;

/// Address that the gateway listens on.
pub const LISTEN_ADDRESS: &'static str = "0.0.0.0:9999";

/// How `POST /payments` is admitted.
#[derive(Debug, Clone, Copy, PartialEq, Eq, Structural)]
pub enum Ingress {
    /// Fast path: dispatch this payment at once, holding the permit until
    /// the dispatch is over.
    Dispatch { payment: Payment },
    /// Fast path: the body did not parse.
    Reject,
    /// Queued path: forward the body as it came to the queue of this worker.
    Enqueue { shard: usize },
    /// Queued path, and there is no queue to forward to.
    Unavailable,
}

/// The counter after one more request on the queued path; it wraps round.
pub open spec fn counter_after(counter: usize) -> usize {
    if counter == usize::MAX {
        0
    } else {
        (counter + 1) as usize
    }
}

/// How a payment is admitted, and what that does to the state.
///
/// With a permit the payment takes the fast path: its body is parsed, and
/// from `parsed` a payment with no request time and no processor is made; a
/// body that did not parse is rejected. Without a permit it takes the queued
/// path: the round-robin counter goes up by one, and the body goes unparsed
/// to the queue whose number is the counter's earlier value modulo the
/// number of queues.
pub open spec fn admission(state: AppStateView, permit: bool, parsed: Option<Payment>) -> (
    AppStateView,
    Ingress,
) {
    if permit {
        (
            state,
            match parsed {
                Some(p) => Ingress::Dispatch {
                    payment: Payment {
                        correlation_id: p.correlation_id,
                        amount: p.amount,
                        requested_at: None,
                        tipo: None,
                    },
                },
                None => Ingress::Reject,
            },
        )
    } else if state.sender_queue == 0 {
        (state, Ingress::Unavailable)
    } else {
        (
            AppStateView { round_robin_counter: counter_after(state.round_robin_counter), ..state },
            Ingress::Enqueue { shard: (state.round_robin_counter % state.sender_queue) as usize },
        )
    }
}

/// Admits one `POST /payments` as `admission` says. `permit` tells whether a
/// permit of the fast path was free and has been taken; `parsed` is the
/// parsed body, or nothing where it did not parse, and is read on the fast
/// path only.
pub fn submit_work_handler(state: &mut AppState, permit: bool, parsed: Option<Payment>) -> (ingress:
    Ingress)
    ensures
        (final(state)@, ingress) == admission(old(state)@, permit, parsed),
        ingress matches Ingress::Enqueue { shard } ==> shard < old(state).sender_queue,
{
    if permit {
        match parsed {
            Some(p) => Ingress::Dispatch { payment: Payment::fresh(p.correlation_id, p.amount) },
            None => Ingress::Reject,
        }
    } else if state.sender_queue == 0 {
        Ingress::Unavailable
    } else {
        let counter: usize = state.round_robin_counter;
        state.round_robin_counter = if counter == usize::MAX {
            0
        } else {
            counter + 1
        };
        Ingress::Enqueue { shard: counter % state.sender_queue }
    }
}

/// The status that answers an admitted payment. `sent` tells, for the
/// queued path, whether the queue took the body.
pub open spec fn status_of(ingress: Ingress, sent: bool) -> u16 {
    match ingress {
        Ingress::Dispatch { .. } => OK,
        Ingress::Reject => BAD_REQUEST,
        Ingress::Enqueue { .. } => if sent {
            OK
        } else {
            SERVICE_UNAVAILABLE
        },
        Ingress::Unavailable => SERVICE_UNAVAILABLE,
    }
}

/// Computes `status_of`.
pub fn admission_status(ingress: &Ingress, sent: bool) -> (status: u16)
    ensures
        status == status_of(*ingress, sent),
{
    match ingress {
        Ingress::Dispatch { .. } => OK,
        Ingress::Reject => BAD_REQUEST,
        Ingress::Enqueue { .. } => if sent {
            OK
        } else {
            SERVICE_UNAVAILABLE
        },
        Ingress::Unavailable => SERVICE_UNAVAILABLE,
    }
}

/// The status of a route that rests on the store: 200 where the store did
/// its part, 500 where it failed.
pub fn store_status(done: bool) -> (status: u16)
    ensures
        status == if done {
            OK
        } else {
            INTERNAL_SERVER_ERROR
        },
{
    if done {
        OK
    } else {
        INTERNAL_SERVER_ERROR
    }
}

/// The status that answers a request which the limits in front of the
/// routes turned away.
pub fn handle_tower_error() -> (status: u16)
    ensures
        status == SERVICE_UNAVAILABLE,
{
    SERVICE_UNAVAILABLE
}

/// Purges the store and gives the status of the route.
pub fn purge_payments(store: &mut Store) -> (status: u16)
    ensures
        final(store)@ == Seq::<Entry>::empty(),
        status == OK,
{
    expurgar_todos_pagamentos(store);
    store_status(true)
}

/// The summary that a reply of the store stands for: the counts as they are,
/// each amount as the decimal number that its text parses to, or zero where
/// it does not parse.
pub open spec fn summary_of_reply(
    default_reqs: u64,
    default_amt: Option<(i128, u32)>,
    fallback_reqs: u64,
    fallback_amt: Option<(i128, u32)>,
) -> PaymentSummary {
    PaymentSummary {
        default: Summary {
            total_requests: default_reqs,
            total_amount: DecimalParts::or_zero(default_amt),
        },
        fallback: Summary {
            total_requests: fallback_reqs,
            total_amount: DecimalParts::or_zero(fallback_amt),
        },
    }
}

/// Computes `summary_of_reply` from amounts that have been parsed.
pub fn summary_from_parsed(
    default_reqs: u64,
    default_amt: Option<(i128, u32)>,
    fallback_reqs: u64,
    fallback_amt: Option<(i128, u32)>,
) -> (summary: PaymentSummary)
    ensures
        summary == summary_of_reply(default_reqs, default_amt, fallback_reqs, fallback_amt),
{
    PaymentSummary {
        default: Summary {
            total_requests: default_reqs,
            total_amount: DecimalParts::from_parsed(default_amt),
        },
        fallback: Summary {
            total_requests: fallback_reqs,
            total_amount: DecimalParts::from_parsed(fallback_amt),
        },
    }
}

/// Turns a reply of the store into the summary that the route answers.
pub fn summary_from_reply(
    default_reqs: u64,
    default_amt: &str,
    fallback_reqs: u64,
    fallback_amt: &str,
) -> (summary: PaymentSummary)
    ensures
        summary == summary_of_reply(
            default_reqs,
            decimal_from_str(default_amt@),
            fallback_reqs,
            decimal_from_str(fallback_amt@),
        ),
{
    PaymentSummary {
        default: Summary { total_requests: default_reqs, total_amount: DecimalParts::read(default_amt) },
        fallback: Summary {
            total_requests: fallback_reqs,
            total_amount: DecimalParts::read(fallback_amt),
        },
    }
}

/// Answers `GET /payments-summary`: the summary of the store over the range
/// that `params` gives, an absent bound leaving its side open.
pub fn get_payment_summary(store: &Store, params: DateRangeParams) -> (summary: PaymentSummary)
    ensures
        ({
            let (from, to) = params.bounds_of();
            summary == summary_of_reply(
                count_of(store@, from, to, TipoProcessador::Default) as u64,
                decimal_from_str(amount_text(sum_of(store@, from, to, TipoProcessador::Default))),
                count_of(store@, from, to, TipoProcessador::Fallback) as u64,
                decimal_from_str(amount_text(sum_of(store@, from, to, TipoProcessador::Fallback))),
            )
        }),
{
    let (from, to) = params.bounds();
    let (default_reqs, default_amt, fallback_reqs, fallback_amt) = coletar_entre_timestamp(
        store,
        from,
        to,
    );
    summary_from_reply(default_reqs, default_amt.as_str(), fallback_reqs, fallback_amt.as_str())
}

} // verus!
