//! Health check for the uncleared alerts of an HPE OneView appliance.
//!
//! The crate holds the decisions of the check: how the HTTP client is set up,
//! which requests are sent, how each reply is judged, and how the alerts that
//! came back are reduced to one monitoring verdict. Sending the requests is
//! left to the caller, who drives a [`probe::Probe`] with what the appliance
//! answered.

pub mod alerts;
pub mod client;
pub mod decimal;
pub mod error;
pub mod laws;
pub mod probe;
pub mod reply;
pub mod request;
pub mod severity;
pub mod verdict;

pub use alerts::{check_alerts, AlertResource, AlertResourceCollection};
pub use client::{client_builder, TrustPolicy};
pub use error::CheckError;
pub use probe::{Event, Probe, Stage, Step};
pub use request::{Exchange, Method, Request};
pub use verdict::{NagiosState, Status};
