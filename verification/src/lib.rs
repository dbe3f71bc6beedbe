//! Supervisor for a bundled sidecar process: it decides when the backend is
//! spawned, what configuration it is handed, and how its readiness is
//! established by bounded polling. All decision logic lives here and is
//! verified; the process and socket calls themselves are performed by the
//! embedding application, which feeds their results back as events.

pub mod poll;
pub mod spawn;
pub mod supervisor;
