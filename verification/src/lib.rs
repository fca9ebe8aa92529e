//! State, projection and orchestration rules of a terminal client for a remote
//! catalog of lab machines.
//!
//! The crate holds the decisions only: which records are shown and in what order,
//! how the selection moves, when free-text entry is allowed, what each event does
//! to the application state, and which request a catalog refresh makes next.
//! Terminal and network work is left to the program that drives these functions.
//!
//! - [`machine`]: the catalog record and the page envelope.
//! - [`criteria`]: the filter, the sort key and the input mode.
//! - [`projection`]: filter and stable sort, with their laws.
//! - [`app`]: the application state, its invariant and its commands.
//! - [`event`]: the events of the bus and the effects owed to the driver.
//! - [`handler`]: key presses and events applied to the state.
//! - [`gateway`]: the steps of a catalog refresh and the outcome of actions.
//! - [`json`]: the two readings of JSON that the gateway needs.
//! - [`text`]: decimal numerals, the order on strings, character edits.

pub mod text;
pub mod machine;
pub mod criteria;
pub mod projection;
pub mod event;
pub mod app;
pub mod handler;
pub mod json;
pub mod gateway;
