//! Verified core of the WoSim engine: event-handling flow combinators,
//! the task scheduler's slot bookkeeping, the paged file layer of the
//! database, Vulkan configuration helpers and the client's input state.

use vstd::prelude::*;

pub mod actor;
pub mod client;
pub mod handle;
pub mod net;
pub mod render;
pub mod task_queue;
pub mod db;
pub mod gui_input;
pub mod vulkan;

verus! {
} // verus!
