//! The upstream HTTP client: its settings, and what its answers mean.

use vstd::prelude::*;
use crate::appstate::AppState;
use crate::models::processor::TipoProcessador;
use crate::text::joined;

verus! {

/// Path of the payment endpoint of an upstream.
pub const PAYMENTS_PATH: &'static str = "/payments";

/// The settings of the one client that serves payment POSTs and health GETs.
#[derive(Debug, Clone, Copy, PartialEq, Eq, Structural)]
pub struct HttpSettings {
    /// Milliseconds that a whole request may take.
    pub timeout_ms: u64,
    /// Milliseconds that connecting may take.
    pub connect_timeout_ms: u64,
    pub tcp_nodelay: bool,
    /// Idle connections kept for each host.
    pub pool_max_idle_per_host: usize,
}

/// The settings of the upstream client: 2 s for a request, 500 ms to
/// connect, no delay on the socket, 100 idle connections for each host.
pub fn cria_cliente_http() -> (settings: HttpSettings)
    ensures
        settings == (HttpSettings {
            timeout_ms: 2000,
            connect_timeout_ms: 500,
            tcp_nodelay: true,
            pool_max_idle_per_host: 100,
        }),
{
    HttpSettings {
        timeout_ms: 2000,
        connect_timeout_ms: 500,
        tcp_nodelay: true,
        pool_max_idle_per_host: 100,
    }
}

/// Whether an HTTP status tells success: the range 200 to 299.
pub open spec fn is_success(status: u16) -> bool {
    200 <= status < 300
}

/// Whether an upstream's status tells that it accepted the request.
pub fn accepted(status: u16) -> (yes: bool)
    ensures
        yes == is_success(status),
{
    200 <= status && status < 300
}

/// The URL that a payment is posted to at the upstream of kind `tipo`: its
/// address followed by `PAYMENTS_PATH`. There is none for `Nenhum`.
pub fn payment_url(state: &AppState, tipo: TipoProcessador) -> (url: Option<String>)
    ensures
        match tipo {
            TipoProcessador::Default => url matches Some(u) && u@
                == state.processors_default.address@ + PAYMENTS_PATH@,
            TipoProcessador::Fallback => url matches Some(u) && u@
                == state.processors_fallback.address@ + PAYMENTS_PATH@,
            TipoProcessador::Nenhum => url is None,
        },
{
    match tipo {
        TipoProcessador::Default => Some(
            joined(state.processors_default.address.as_str(), PAYMENTS_PATH),
        ),
        TipoProcessador::Fallback => Some(
            joined(state.processors_fallback.address.as_str(), PAYMENTS_PATH),
        ),
        TipoProcessador::Nenhum => None,
    }
}

} // verus!
