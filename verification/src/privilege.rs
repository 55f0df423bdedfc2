//! The four hardware privilege rings.

use vstd::prelude::*;

verus! {

/// A CPU privilege ring. Ring 0 is the most privileged (kernel mode),
/// ring 3 the least (user mode).
#[derive(Debug, Copy, Clone, PartialEq, Eq, Structural)]
pub enum KernelRings {
    Ring0,
    Ring1,
    Ring2,
    Ring3,
}

impl KernelRings {
    /// The ordinal of the ring as the hardware encodes it.
    pub open spec fn spec_value(self) -> u16 {
        match self {
            KernelRings::Ring0 => 0,
            KernelRings::Ring1 => 1,
            KernelRings::Ring2 => 2,
            KernelRings::Ring3 => 3,
        }
    }

    /// The two-bit hardware encoding of this ring.
    #[verifier::when_used_as_spec(spec_value)]
    pub fn value(self) -> (r: u16)
        ensures
            r == self.spec_value(),
            r <= 3,
    {
        match self {
            KernelRings::Ring0 => 0,
            KernelRings::Ring1 => 1,
            KernelRings::Ring2 => 2,
            KernelRings::Ring3 => 3,
        }
    }

    /// The ring with the given ordinal. Values above 3 name no ring and
    /// are rejected up front: a caller holding one has a malformed table.
    pub fn new(privilege_level: u16) -> (r: Self)
        requires
            privilege_level <= 3,
        ensures
            r.spec_value() == privilege_level,
    {
        match privilege_level {
            0 => KernelRings::Ring0,
            1 => KernelRings::Ring1,
            2 => KernelRings::Ring2,
            _ => KernelRings::Ring3,
        }
    }
}

} // verus!
