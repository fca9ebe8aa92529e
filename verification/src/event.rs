//! What travels on the event bus, and what the state owner asks of its driver.

use crate::machine::Machine;
use vstd::prelude::*;

verus! {

/// A key press, reduced to what the commands tell apart.
#[derive(Debug, Clone, Copy, PartialEq, Eq, Structural)]
pub enum Key {
    /// A character key.
    Char(char),
    /// Arrow up.
    Up,
    /// Arrow down.
    Down,
    /// Enter.
    Enter,
    /// Escape.
    Esc,
    /// Backspace.
    Backspace,
    /// Any other key.
    Other,
}

/// An event on the bus.
#[derive(Debug, PartialEq, Eq)]
pub enum Event {
    /// The timer fired.
    Tick,
    /// A key was pressed.
    Key(Key),
    /// The pointer moved or clicked.
    Mouse,
    /// The terminal was resized to this width and height.
    Resize(u16, u16),
    /// Fresh data is wanted.
    FetchMachines,
    /// A refresh ended, with the whole catalog or with an error text.
    FetchMachinesResult(Result<Vec<Machine>, String>),
    /// The record with this identifier is to be started.
    SpawnMachine(u64),
    /// A start request ended, with a message or with an error text.
    SpawnMachineResult(Result<String, String>),
    /// This token is to be submitted for the record with this identifier.
    SubmitFlag(u64, String),
    /// A token submission ended, with a message or with an error text.
    SubmitFlagResult(Result<String, String>),
    /// The catalog may have changed: a refresh is to be requested.
    UpdateList,
    /// The status message is to be replaced by this text.
    UpdateInfoMessage(String),
}

/// What the driver has to do after the state owner handled an event.
#[derive(Debug, PartialEq, Eq)]
pub enum Effect {
    /// Nothing.
    Idle,
    /// Post this event onto the bus.
    Emit(Event),
    /// Run a catalog refresh in the background and post its result.
    Refresh,
    /// Run the start action for this identifier in the background and post its
    /// result.
    Start(u64),
    /// Submit this token for this identifier in the background and post the
    /// result.
    Submit(u64, String),
}

} // verus!
