//! The health subscriber of a follower: what a message from the bus does to
//! the registry.

use vstd::prelude::*;
use crate::api::nats::{slot_of_subject, subject_index};
use crate::appstate::{AppState, AppStateView};
use crate::workers::health_checker::HealthReport;

verus! {

/// The registry after a message on `subject` whose payload decoded to
/// `report`, or did not decode: the report is written into the slot that the
/// subject names. A subject that names no slot, or none of the two, and a
/// payload that did not decode leave the registry as it was.
pub open spec fn after_message(
    state: AppStateView,
    subject: Seq<char>,
    report: Option<HealthReport>,
) -> AppStateView {
    match (subject_index(subject), report) {
        (Some(slot), Some(r)) => state.with_health(slot as int, r.failing, r.min_response_time),
        _ => state,
    }
}

/// Takes one message from the bus and mirrors it in the registry; returns
/// whether the message was written. Messages that cannot be used are dropped.
pub fn cria_worker_confere_saude(state: &mut AppState, subject: &str, report: Option<HealthReport>)
    -> (written: bool)
    ensures
        final(state)@ == after_message(old(state)@, subject@, report),
        written <==> {
            &&& report is Some
            &&& subject_index(subject@) matches Some(slot)
            &&& slot < 2
        },
{
    match slot_of_subject(subject) {
        Some(slot) => match report {
            Some(r) => state.set_health(slot, r.failing, r.min_response_time),
            None => false,
        },
        None => false,
    }
}

} // verus!
