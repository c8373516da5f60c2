//! What the guest program and its host agree on.

use vstd::prelude::*;

verus! {

/// The module under which the guest imports its host functions.
pub const HOST_MODULE: &'static str = "env";

/// The name of the millisecond clock that the guest imports. It takes no
/// argument and returns a 32-bit tick count.
pub const CLOCK_IMPORT: &'static str = "clock_ms";

/// The name of the entry point that the guest exports. It takes no argument
/// and returns the score as a 32-bit float.
pub const ENTRY_POINT: &'static str = "run";

/// The size of the guest's stack, in slots, for an engine that has to be told.
pub const STACK_SLOTS: u32 = 2048;

} // verus!
