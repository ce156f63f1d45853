//! A bridge between an interactive line-editing engine and a foreign host.
//!
//! The host sees flat records, integers and null-terminated byte strings; the
//! engine sees typed values. Every module here states, in its contracts, what
//! crosses that boundary and in which form.

pub mod config;
pub mod engine;
pub mod envelope;
pub mod hooks;
pub mod marshal;
pub mod session;
pub mod split;
