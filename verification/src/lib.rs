//! Core of a policy-driven admission webhook: the response-shaping rules that
//! project a raw policy verdict through policy mode, mutation permission and
//! namespace overrides, the per-request worker logic around them, and the
//! bounded queue that feeds the workers.

pub mod admission;
pub mod api;
pub mod communication;
pub mod pool;
pub mod metrics;
pub mod settings;
pub mod worker;
