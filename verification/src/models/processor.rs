//! One upstream processor as the registry sees it.

use vstd::prelude::*;

verus! {

/// Which of the two upstreams a slot, an attempt or a stored payment belongs
/// to. `Nenhum` marks a value that belongs to neither.
#[derive(Debug, Clone, Copy, PartialEq, Eq, Structural)]
pub enum TipoProcessador {
    Default,
    Fallback,
    Nenhum,
}

/// Health and address of one upstream.
#[derive(Debug, Clone)]
pub struct Processor {
    pub failing: bool,
    pub min_response_time: u16,
    pub address: String,
    pub tipo: TipoProcessador,
}

/// A processor with its address as a sequence of characters.
pub struct ProcessorView {
    pub failing: bool,
    pub min_response_time: u16,
    pub address: Seq<char>,
    pub tipo: TipoProcessador,
}

impl View for Processor {
    type V = ProcessorView;

    open spec fn view(&self) -> ProcessorView {
        ProcessorView {
            failing: self.failing,
            min_response_time: self.min_response_time,
            address: self.address@,
            tipo: self.tipo,
        }
    }
}

impl Processor {
    /// The state assumed of an upstream about which nothing is known: failing,
    /// with a response time of 100 ms, no address and no kind.
    pub fn default() -> (p: Self)
        ensures
            p@ == (ProcessorView {
                failing: true,
                min_response_time: 100,
                address: Seq::<char>::empty(),
                tipo: TipoProcessador::Nenhum,
            }),
    {
        Self {
            failing: true,
            min_response_time: 100,
            address: String::new(),
            tipo: TipoProcessador::Nenhum,
        }
    }

    /// A processor of these values.
    pub fn new(failing: bool, min_response_time: u16, address: String, tipo: TipoProcessador) -> (p:
        Self)
        ensures
            p@ == (ProcessorView { failing, min_response_time, address: address@, tipo }),
    {
        Self { failing, min_response_time, address, tipo }
    }

    /// A copy of this processor.
    pub fn duplicate(&self) -> (p: Self)
        ensures
            p@ == self@,
    {
        Self {
            failing: self.failing,
            min_response_time: self.min_response_time,
            address: self.address.clone(),
            tipo: self.tipo,
        }
    }
}

/// The kind given to a processor state that arrives without one.
pub fn default_tipo() -> (t: TipoProcessador)
    ensures
        t == TipoProcessador::Nenhum,
{
    TipoProcessador::Nenhum
}

/// The address given to a processor state that arrives without one.
pub fn default_address() -> (a: String)
    ensures
        a@ == Seq::<char>::empty(),
{
    String::new()
}

} // verus!
