//! The debugged machine as the console sees it: the values it samples and the
//! controller flags it sets. The host fills a `Machine` from the real one
//! before it calls the console, and carries the controller flags back.

use vstd::prelude::*;

verus! {

/// The number of bytes in the machine's address space: every `u16` is an
/// address.
pub const MEMORY_SIZE: usize = 65536;

/// The controller as the machine polls it: one flag for each button, and the
/// two bytes the machine last derived from them, kept until a flag changes.
#[derive(Clone, Copy, Debug, PartialEq, Eq)]
pub struct ControllerState {
    pub a: bool,
    pub b: bool,
    pub up: bool,
    pub down: bool,
    pub left: bool,
    pub right: bool,
    pub x: bool,
    pub y: bool,
    pub start: bool,
    pub cached: Option<[u8; 2]>,
}

/// What the console reads of the machine, and the controller it writes.
#[derive(Clone, Debug)]
pub struct Machine {
    /// The address of the instruction that runs next.
    pub pc: u16,
    pub memory: [u8; MEMORY_SIZE],
    /// The cycles run since the session began.
    pub cycles_executed: usize,
    pub input_state: ControllerState,
}

/// The controller after the up key was sampled: the flag follows the key, and
/// the derived bytes are forgotten.
pub open spec fn with_up(state: ControllerState, held: bool) -> ControllerState {
    ControllerState { up: held, cached: None, ..state }
}

} // verus!
