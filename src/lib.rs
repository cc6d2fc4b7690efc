//! Real-time noise synthesis core: a change-detecting parameter cell, the
//! amplitude command protocol between the control thread and the audio
//! callback, and the shutdown fan-out that stops every subsystem once.

use vstd::prelude::*;

pub mod audio;
pub mod control;
pub mod parameter;
pub mod system;

verus! {

} // verus!
