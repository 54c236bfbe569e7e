//! A cloud-function handler that publishes a fixed JSON rejection record to a
//! device topic and answers every request with a fixed HTTP page.
//!
//! The library holds the decisions of one invocation; the runtime, the
//! region provider and the publish client are driven from outside it.

pub mod payload;
pub mod region;
pub mod handler;
