//! One frame of keyboard input, as the console reads it.

use vstd::prelude::*;
use crate::entry::TextChar;

verus! {

/// The keys the console listens to, sampled once for a frame, and the frame's
/// text events in the order they came.
#[derive(Clone, Debug, PartialEq, Eq)]
pub struct FrameInput {
    /// Escape went down in this frame.
    pub pressed_escape: bool,
    /// P went down in this frame.
    pub pressed_p: bool,
    /// H went down in this frame.
    pub pressed_h: bool,
    /// V went down in this frame.
    pub pressed_v: bool,
    /// Return went down in this frame.
    pub pressed_return: bool,
    /// W is down, whenever it went down.
    pub held_w: bool,
    pub text: Vec<TextChar>,
}

} // verus!
