//! The decisions of a polling agent, apart from the calls it makes.
//!
//! On a fixed interval the agent takes an inventory of a container runtime
//! and posts it as JSON to a status endpoint, or, in its second mode, polls a
//! plain HTTP endpoint. Everything the agent decides is here as a function
//! from plain values to plain values: which queries make up an inventory, what
//! request carries it, what line is logged for what came back, and what the
//! loop does next. The program around this library performs the calls.

pub mod decimal;
pub mod inventory;
pub mod config;
pub mod request;
pub mod report;
pub mod supervisor;
pub mod laws;
