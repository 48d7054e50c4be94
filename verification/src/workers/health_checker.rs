//! The health prober of the leader: what it asks of an upstream, and what an
//! answer, or none, does to the registry.

use vstd::prelude::*;
use crate::api::http::{accepted, is_success};
use crate::api::nats::{status_subject, subject_of};
use crate::appstate::{slot_of, AppState, AppStateView};
use crate::models::processor::{Processor, ProcessorView, TipoProcessador};
use crate::text::{joined, same_text};

verus! {

/// Path of the health endpoint of an upstream.
pub const HEALTH_PATH: &'static str = "/payments/service-health";

/// Milliseconds that a probe may take beyond the response time that the
/// upstream last reported.
pub const PROBE_TIMEOUT_BASE_MS: u64 = 100;

/// Milliseconds between two probes of an upstream, beyond its response time.
pub const PROBE_INTERVAL_MS: u64 = 5000;

/// The response time written for an upstream whose probe failed.
pub const FAILED_RESPONSE_TIME: u16 = 500;

/// The value of `ROLE` that makes an instance the leader.
pub const ROLE_LEADER: &'static str = "LIDER";

/// What an instance does about upstream health.
#[derive(Debug, Clone, Copy, PartialEq, Eq, Structural)]
pub enum Role {
    /// Probes the upstreams and publishes what it finds.
    Leader,
    /// Mirrors what the leader publishes; never probes.
    Follower,
}

/// The role that the setting `ROLE` gives: the leader where it is not set or
/// is `LIDER`, a follower for any other value.
pub fn role_of(role: Option<&str>) -> (r: Role)
    ensures
        r == match role {
            None => Role::Leader,
            Some(value) => if value@ == ROLE_LEADER@ {
                Role::Leader
            } else {
                Role::Follower
            },
        },
{
    match role {
        None => Role::Leader,
        Some(value) => if same_text(value, ROLE_LEADER) {
            Role::Leader
        } else {
            Role::Follower
        },
    }
}

/// The upstreams that the leader probes, one prober each.
pub fn cria_worker_coleta_saude() -> (targets: (TipoProcessador, TipoProcessador))
    ensures
        targets == (TipoProcessador::Default, TipoProcessador::Fallback),
{
    (TipoProcessador::Default, TipoProcessador::Fallback)
}

/// What a health endpoint reports.
#[derive(Debug, Clone, Copy, PartialEq, Eq, Structural)]
pub struct HealthReport {
    pub failing: bool,
    pub min_response_time: u16,
}

/// How a probe ended.
#[derive(Debug, Clone, Copy, PartialEq, Eq, Structural)]
pub enum ProbeOutcome {
    /// The upstream answered with this status; `report` is the body where it
    /// could be decoded.
    Answered { status: u16, report: Option<HealthReport> },
    /// No answer came in time.
    Unreachable,
}

/// The GET that probes an upstream.
pub struct ProbePlan {
    pub url: String,
    pub timeout_ms: u64,
}

/// One publication on the bus.
pub struct Publication {
    pub subject: String,
    pub state: Processor,
}

/// What follows a probe: what to publish, if anything, and how long to wait
/// before the next probe.
pub struct ProbeStep {
    pub publication: Option<Publication>,
    pub sleep_ms: u64,
}

impl ProbeOutcome {
    /// The report of a probe that succeeded: the status is in the range 200
    /// to 299 and the body could be decoded.
    pub open spec fn report(self) -> Option<HealthReport> {
        match self {
            ProbeOutcome::Answered { status, report } => if is_success(status) {
                report
            } else {
                None
            },
            ProbeOutcome::Unreachable => None,
        }
    }
}

impl ProcessorView {
    /// This processor after a probe failed: failing, with the response time
    /// `FAILED_RESPONSE_TIME`.
    pub open spec fn failed(self) -> ProcessorView {
        self.with_health(true, FAILED_RESPONSE_TIME)
    }

    /// This processor after a probe that ended as `outcome`.
    pub open spec fn probed(self, outcome: ProbeOutcome) -> ProcessorView {
        match outcome.report() {
            Some(report) => self.with_health(report.failing, report.min_response_time),
            None => self.failed(),
        }
    }
}

/// Writes a failed probe into a processor: it is failing, and its response
/// time is `FAILED_RESPONSE_TIME`.
pub fn marcar_como_falho(processor: &mut Processor)
    ensures
        final(processor)@ == old(processor)@.failed(),
{
    processor.failing = true;
    processor.min_response_time = FAILED_RESPONSE_TIME;
}

/// The probe of the upstream of kind `tipo`: a GET of its health endpoint
/// that may take `PROBE_TIMEOUT_BASE_MS` beyond the response time that the
/// registry holds for it. There is nothing to probe for `Nenhum`.
pub fn plan_probe(state: &AppState, tipo: TipoProcessador) -> (plan: Option<ProbePlan>)
    ensures
        plan is Some <==> tipo != TipoProcessador::Nenhum,
        plan matches Some(p) ==> {
            let slot = state@.slot(slot_of(tipo)->0 as int)->0;
            &&& p.url@ == slot.address + HEALTH_PATH@
            &&& p.timeout_ms == PROBE_TIMEOUT_BASE_MS + slot.min_response_time
        },
{
    match tipo {
        TipoProcessador::Default => Some(
            ProbePlan {
                url: joined(state.processors_default.address.as_str(), HEALTH_PATH),
                timeout_ms: PROBE_TIMEOUT_BASE_MS + state.processors_default.min_response_time
                    as u64,
            },
        ),
        TipoProcessador::Fallback => Some(
            ProbePlan {
                url: joined(state.processors_fallback.address.as_str(), HEALTH_PATH),
                timeout_ms: PROBE_TIMEOUT_BASE_MS + state.processors_fallback.min_response_time
                    as u64,
            },
        ),
        TipoProcessador::Nenhum => None,
    }
}

/// Takes the outcome of a probe of one processor: a report is written into
/// it and the processor is to be published on the subject of its slot; a
/// failed probe is written as `marcar_como_falho` does and nothing is
/// published. The next probe follows `PROBE_INTERVAL_MS` and the response
/// time that stood before this probe later.
fn probe_slot(processor: &mut Processor, slot: usize, outcome: ProbeOutcome) -> (step: ProbeStep)
    ensures
        final(processor)@ == old(processor)@.probed(outcome),
        step.sleep_ms == PROBE_INTERVAL_MS + old(processor).min_response_time,
        step.publication is Some <==> outcome.report() is Some,
        step.publication matches Some(p) ==> p.subject@ == subject_of(slot as nat) && p.state@
            == final(processor)@,
{
    let sleep_ms: u64 = PROBE_INTERVAL_MS + processor.min_response_time as u64;
    let report: Option<HealthReport> = match outcome {
        ProbeOutcome::Answered { status, report } => if accepted(status) {
            report
        } else {
            None
        },
        ProbeOutcome::Unreachable => None,
    };
    match report {
        Some(r) => {
            processor.failing = r.failing;
            processor.min_response_time = r.min_response_time;
            ProbeStep {
                publication: Some(
                    Publication { subject: status_subject(slot), state: processor.duplicate() },
                ),
                sleep_ms,
            }
        },
        None => {
            marcar_como_falho(processor);
            ProbeStep { publication: None, sleep_ms }
        },
    }
}

/// The registry after a probe of the upstream of kind `tipo` ended as
/// `outcome`.
pub open spec fn after_probe(state: AppStateView, tipo: TipoProcessador, outcome: ProbeOutcome)
    -> AppStateView {
    match tipo {
        TipoProcessador::Default => AppStateView {
            processors_default: state.processors_default.probed(outcome),
            ..state
        },
        TipoProcessador::Fallback => AppStateView {
            processors_fallback: state.processors_fallback.probed(outcome),
            ..state
        },
        TipoProcessador::Nenhum => state,
    }
}

/// Takes the outcome of a probe of the upstream of kind `tipo`.
///
/// On a report (an answer in the range 200 to 299 whose body could be
/// decoded) both fields of the report are written into the registry slot and
/// the slot's new state is to be published on its subject. On anything else
/// the slot is written as failing, with the response time
/// `FAILED_RESPONSE_TIME`, and nothing is published. The next probe follows
/// `PROBE_INTERVAL_MS` and the response time that stood before this probe
/// later. For `Nenhum` there is no prober: nothing is written and nothing
/// follows.
pub fn coleta_saude_processador(state: &mut AppState, tipo: TipoProcessador, outcome: ProbeOutcome)
    -> (step: Option<ProbeStep>)
    ensures
        final(state)@ == after_probe(old(state)@, tipo, outcome),
        step is Some <==> tipo != TipoProcessador::Nenhum,
        step matches Some(s) ==> {
            let slot = slot_of(tipo)->0;
            &&& s.sleep_ms == PROBE_INTERVAL_MS + old(state)@.slot(slot as int)->0.min_response_time
            &&& s.publication is Some <==> outcome.report() is Some
            &&& s.publication matches Some(p) ==> p.subject@ == subject_of(slot as nat)
                && Some(p.state@) == final(state)@.slot(slot as int)
        },
{
    match tipo {
        TipoProcessador::Default => Some(probe_slot(&mut state.processors_default, 0, outcome)),
        TipoProcessador::Fallback => Some(probe_slot(&mut state.processors_fallback, 1, outcome)),
        TipoProcessador::Nenhum => None,
    }
}

} // verus!
