//! Weather report preparation: forecast records, their display-ready
//! presentation, the console layout of a report, and the context with which
//! a template engine renders it as a page.
//!
//! Everything here works on plain values. Reading the environment, asking
//! the machine's time zone for local time, talking to the network, touching
//! files, running the template engine and driving a browser are left to the
//! caller.

pub mod clock;
pub mod decimal;
pub mod error;
pub mod fetch;
pub mod icons;
pub mod models;
pub mod present;
pub mod render;
pub mod snapshot;
pub mod template;
pub mod text;
