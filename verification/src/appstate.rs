//! The state that the handlers and workers of one gateway instance share.

use vstd::prelude::*;
use crate::models::processor::{Processor, ProcessorView, TipoProcessador};

verus! {

/// The registry of the two upstreams, the round-robin counter of the queued
/// path and the settings of the instance.
///
/// `processors_default` is slot 0 and `processors_fallback` slot 1. The
/// registry holds no derived state: within one instance it is the ground truth
/// of upstream health.
pub struct AppState {
    pub processors_default: Processor,
    pub processors_fallback: Processor,
    /// Number of worker queues of the queued path.
    pub sender_queue: usize,
    pub round_robin_counter: usize,
    /// Share of the retry budget, in percent, that is spent on the preferred
    /// upstream before the fallback becomes eligible.
    pub retry_default_percentage: u8,
}

/// The shared state with its processors as plain values.
pub struct AppStateView {
    pub processors_default: ProcessorView,
    pub processors_fallback: ProcessorView,
    pub sender_queue: usize,
    pub round_robin_counter: usize,
    pub retry_default_percentage: u8,
}

impl View for AppState {
    type V = AppStateView;

    open spec fn view(&self) -> AppStateView {
        AppStateView {
            processors_default: self.processors_default@,
            processors_fallback: self.processors_fallback@,
            sender_queue: self.sender_queue,
            round_robin_counter: self.round_robin_counter,
            retry_default_percentage: self.retry_default_percentage,
        }
    }
}

/// The slot of a kind of processor: 0 for the preferred one, 1 for the
/// fallback, none for `Nenhum`.
pub open spec fn slot_of(tipo: TipoProcessador) -> Option<usize> {
    match tipo {
        TipoProcessador::Default => Some(0usize),
        TipoProcessador::Fallback => Some(1usize),
        TipoProcessador::Nenhum => None,
    }
}

impl ProcessorView {
    /// This processor with its health replaced.
    pub open spec fn with_health(self, failing: bool, min_response_time: u16) -> ProcessorView {
        ProcessorView { failing, min_response_time, ..self }
    }

    /// This processor marked as failing, its response time kept.
    pub open spec fn marked_failing(self) -> ProcessorView {
        ProcessorView { failing: true, ..self }
    }
}

impl AppStateView {
    /// The state of the upstream in `slot`, if there is such a slot.
    pub open spec fn slot(self, slot: int) -> Option<ProcessorView> {
        if slot == 0 {
            Some(self.processors_default)
        } else if slot == 1 {
            Some(self.processors_fallback)
        } else {
            None
        }
    }

    /// This state with the health of the upstream in `slot` replaced; unchanged
    /// where there is no such slot.
    pub open spec fn with_health(self, slot: int, failing: bool, min_response_time: u16)
        -> AppStateView {
        if slot == 0 {
            AppStateView {
                processors_default: self.processors_default.with_health(failing, min_response_time),
                ..self
            }
        } else if slot == 1 {
            AppStateView {
                processors_fallback: self.processors_fallback.with_health(
                    failing,
                    min_response_time,
                ),
                ..self
            }
        } else {
            self
        }
    }

    /// This state after a dispatch saw the upstream of kind `tipo` fail;
    /// unchanged for `Nenhum`.
    pub open spec fn marked_failing(self, tipo: TipoProcessador) -> AppStateView {
        match tipo {
            TipoProcessador::Default => AppStateView {
                processors_default: self.processors_default.marked_failing(),
                ..self
            },
            TipoProcessador::Fallback => AppStateView {
                processors_fallback: self.processors_fallback.marked_failing(),
                ..self
            },
            TipoProcessador::Nenhum => self,
        }
    }
}

impl AppState {
    /// The shared state at startup: both upstreams taken as healthy with a
    /// response time of 100 ms, the counter at zero.
    pub fn new(
        url_default: String,
        url_fallback: String,
        sender_queue: usize,
        retry_default_percentage: u8,
    ) -> (state: AppState)
        ensures
            state@ == (AppStateView {
                processors_default: ProcessorView {
                    failing: false,
                    min_response_time: 100,
                    address: url_default@,
                    tipo: TipoProcessador::Default,
                },
                processors_fallback: ProcessorView {
                    failing: false,
                    min_response_time: 100,
                    address: url_fallback@,
                    tipo: TipoProcessador::Fallback,
                },
                sender_queue,
                round_robin_counter: 0,
                retry_default_percentage,
            }),
    {
        AppState {
            processors_default: Processor::new(false, 100, url_default, TipoProcessador::Default),
            processors_fallback: Processor::new(false, 100, url_fallback, TipoProcessador::Fallback),
            sender_queue,
            round_robin_counter: 0,
            retry_default_percentage,
        }
    }

    /// Writes the health of the upstream in `slot`. Returns whether there is
    /// such a slot; the state is unchanged where there is none.
    pub fn set_health(&mut self, slot: usize, failing: bool, min_response_time: u16) -> (known:
        bool)
        ensures
            known == (slot < 2),
            final(self)@ == old(self)@.with_health(slot as int, failing, min_response_time),
    {
        if slot == 0 {
            self.processors_default.failing = failing;
            self.processors_default.min_response_time = min_response_time;
            true
        } else if slot == 1 {
            self.processors_fallback.failing = failing;
            self.processors_fallback.min_response_time = min_response_time;
            true
        } else {
            false
        }
    }

    /// Marks the upstream of kind `tipo` as failing, as a dispatch does that
    /// has seen it refuse or not answer.
    pub fn mark_failing(&mut self, tipo: TipoProcessador)
        ensures
            final(self)@ == old(self)@.marked_failing(tipo),
    {
        match tipo {
            TipoProcessador::Default => {
                self.processors_default.failing = true;
            },
            TipoProcessador::Fallback => {
                self.processors_fallback.failing = true;
            },
            TipoProcessador::Nenhum => {},
        }
    }
}

} // verus!
