use vstd::prelude::*;

pub mod client;
pub mod cmd;
pub mod db;
pub mod json;
pub mod processor;
pub mod wire;
pub mod workers;

verus! {

/// Why a frame or command was rejected. Any of these is fatal to the
/// connection it arrived on, and to nothing else.
#[derive(Clone, Copy, Debug, PartialEq, Eq, Structural)]
pub enum ProtocolError {
    /// The opcode byte named no command.
    UnknownOpcode,
    /// A Put body was not a well-formed payment encoding.
    MalformedPayment,
    /// A command body had the wrong length.
    BadBodyLength,
}

/// Which upstream payment provider handled (or should handle) a payment.
#[derive(Clone, Copy, Debug, PartialEq, Eq, Structural)]
pub enum PaymentType {
    Default,
    Fallback,
}

/// Latest health report of one provider: whether it reports itself as
/// failing, and its reported minimum response time in milliseconds.
#[derive(Clone, Copy, Debug, PartialEq, Eq, Structural)]
pub struct HealthCheck {
    pub failing: bool,
    pub min_response_time: u32,
}

/// The routing signal: the health snapshot of both providers. It is always
/// fully populated and is replaced wholesale on each monitor poll, never
/// partially mutated.
#[derive(Clone, Copy, Debug, PartialEq, Eq, Structural)]
pub struct HealthCheckResult {
    pub default_health_check: HealthCheck,
    pub fallback_health_check: HealthCheck,
}

} // verus!
