//! A protocol-conformance simulation engine.
//!
//! An injector drives a target service through the scripted calls of a
//! scenario and verifies each response; a responder answers incoming calls
//! from a script and enforces their order. This library holds the rules of
//! both: the data model, the partial match of structured values, the retry
//! and delay policy, the steps of a run, the responder's sequencing and the
//! report. Waiting, sleeping and the transport are the host's.

pub mod actions;
pub mod binding;
pub mod config;
pub mod executor;
pub mod injector;
pub mod json;
pub mod matching;
pub mod policy;
pub mod register;
pub mod responder;
pub mod scenario;
pub mod status;
pub mod text;
pub mod verbs;
