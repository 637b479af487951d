//! Decision logic of an OpenHCL guest: hardware sealing of the disk key and
//! its recovery after migration, the VMGS broker, the host attestation RPCs,
//! and the tracing and diagnostics loops of the migration agent.
//!
//! The functions here work on plain values and are verified, but for the few
//! calls of outside crates that `trusted` states. What needs the hardware, the
//! host, the disk or a clock is performed by the caller, which hands the
//! outcome back to the function that decides what comes next.

pub mod agent;
pub mod agent_laws;
pub mod attest;
pub mod broker;
pub mod bytes;
pub mod call_laws;
pub mod client;
pub mod gsp;
pub mod hardware_reseal;
pub mod host_laws;
pub mod hresult;
pub mod mesh_layer;
pub mod protector;
pub mod reseal_run;
pub mod runtime_sealing;
pub mod sealing_laws;
pub mod store_laws;
pub mod text;
pub mod text_laws;
pub mod tracing_setup;
mod trusted;
pub mod wmi;
