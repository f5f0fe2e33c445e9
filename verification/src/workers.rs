//! The decision cores of the long-running tasks: endpoint selection, the
//! dispatch worker's retry decisions, and the health monitor's poll cycle.
//! The loops around them suspend on I/O and sleeps and run with the caller.

pub mod endpoint_selector;
pub mod health_check_worker;
pub mod payment_worker;
