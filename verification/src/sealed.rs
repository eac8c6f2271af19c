//! Sealing module for the instance abstraction: only this crate can add
//! controller instances, so the set of instances is closed and the pin
//! capability registry can be exhaustive over it.

use vstd::prelude::*;

use crate::instance::Eth;
use crate::pins::InstanceId;

verus! {

/// Implementation side of [`crate::instance::Instance`].
pub trait Instance {
    /// Identifier of this instance in the pin capability registry.
    spec fn id() -> InstanceId;

    /// Accessor to the instance's memory-mapped register block.
    fn regs() -> (block: Eth)
        ensures
            block.wf(),
            block.spec_instance() == Self::id(),
    ;
}

} // verus!
