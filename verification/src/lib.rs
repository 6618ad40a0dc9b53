//! Core of a terminal chat client's AI command layer: configuration of the
//! completion endpoint, construction and interpretation of single
//! request/response exchanges with it, and deterministic decoding of the
//! model's free-text output into a closed set of typed actions.

pub mod config;
pub mod error;
pub mod interpreter;
pub mod json;
pub mod strutil;
pub mod transport;
