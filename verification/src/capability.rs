//! Queue capabilities, both as type-level markers and as a runtime value.

use vstd::prelude::*;
use crate::vulkan;

verus! {

/// Queue from families with `Transfer` capability supports only few transfer operations.
#[derive(Copy, Clone, Debug, Default, PartialEq, Eq)]
pub struct Transfer;

/// Queue from families with `Graphics` capability supports drawing operations.
#[derive(Copy, Clone, Debug, Default, PartialEq, Eq)]
pub struct Graphics;

/// Queue from families with `Compute` capability supports compute operations.
#[derive(Copy, Clone, Debug, Default, PartialEq, Eq)]
pub struct Compute;

/// Queue from families with `General` capability supports both compute and graphics operations.
#[derive(Copy, Clone, Debug, Default, PartialEq, Eq)]
pub struct General;

/// Requirements for either graphics or compute capability.
/// Only ever used as a type-level marker; it carries no value.
#[derive(Copy, Clone, Debug, PartialEq, Eq)]
pub struct GraphicsOrCompute;

/// Trait to check what capability supports what operations.
pub trait Supports<C>: Sized {
    /// Whether a queue with this capability can run operations that need `C`.
    spec fn supported(self) -> bool;

    fn supports(self) -> (r: bool)
        ensures
            r == self.supported(),
    ;
}

/// Runtime capability value.
#[derive(Copy, Clone, Debug, PartialEq, Eq, Structural)]
pub enum Capability {
    Transfer,
    Graphics,
    Compute,
    General,
}

impl Capability {
    /// `self` supports `other`: every capability supports transfers,
    /// `General` supports everything, and otherwise only itself.
    pub open spec fn spec_supports(self, other: Capability) -> bool {
        other == Capability::Transfer || self == Capability::General || self == other
    }

    /// Check if capability supports another one.
    #[verifier::when_used_as_spec(spec_supports)]
    pub fn supports(self, other: Capability) -> (r: bool)
        ensures
            r == self.spec_supports(other),
    {
        match (self, other) {
            (_, Capability::Transfer) | (Capability::General, _) => true,
            (left, right) => left == right,
        }
    }

    /// Transform into `Transfer`.
    pub fn transfer(self) -> (r: Transfer)
        requires
            self.supports(Capability::Transfer),
    {
        Transfer
    }

    /// Transform into `Graphics`.
    /// Only for capabilities that support graphics.
    pub fn graphics(self) -> (r: Graphics)
        requires
            self.supports(Capability::Graphics),
    {
        Graphics
    }

    /// Transform into `Compute`.
    pub fn compute(self) -> (r: Compute)
        requires
            self.supports(Capability::Compute),
    {
        Compute
    }

    /// Transform into `General`.
    pub fn general(self) -> (r: General)
        requires
            self.supports(Capability::General),
    {
        General
    }

    /// The capability of a queue family with the given raw `VkQueueFlags`.
    pub open spec fn spec_from_queue_flags(flags: u32) -> Capability {
        if flags & vulkan::QUEUE_COMPUTE != 0 {
            if flags & vulkan::QUEUE_GRAPHICS != 0 {
                Capability::General
            } else {
                Capability::Compute
            }
        } else if flags & vulkan::QUEUE_GRAPHICS != 0 {
            Capability::Graphics
        } else {
            Capability::Transfer
        }
    }

    /// Classify raw `VkQueueFlags`. A family with none of the graphics,
    /// compute or transfer bits has no capability.
    pub fn from_queue_flags(flags: u32) -> (r: Capability)
        requires
            flags & (vulkan::QUEUE_COMPUTE | vulkan::QUEUE_GRAPHICS | vulkan::QUEUE_TRANSFER) != 0,
        ensures
            r == Capability::spec_from_queue_flags(flags),
    {
        if flags & vulkan::QUEUE_COMPUTE != 0 {
            if flags & vulkan::QUEUE_GRAPHICS != 0 {
                Capability::General
            } else {
                Capability::Compute
            }
        } else {
            if flags & vulkan::QUEUE_GRAPHICS != 0 {
                Capability::Graphics
            } else {
                Capability::Transfer
            }
        }
    }
}

impl Supports<Transfer> for Transfer {
    open spec fn supported(self) -> bool {
        true
    }

    fn supports(self) -> (r: bool) { true }
}

impl Supports<Transfer> for Graphics {
    open spec fn supported(self) -> bool {
        true
    }

    fn supports(self) -> (r: bool) { true }
}

impl Supports<Transfer> for Compute {
    open spec fn supported(self) -> bool {
        true
    }

    fn supports(self) -> (r: bool) { true }
}

impl Supports<Transfer> for General {
    open spec fn supported(self) -> bool {
        true
    }

    fn supports(self) -> (r: bool) { true }
}

impl Supports<Transfer> for Capability {
    open spec fn supported(self) -> bool {
        self.spec_supports(Capability::Transfer)
    }

    fn supports(self) -> (r: bool) {
        Capability::supports(self, Capability::Transfer)
    }
}

impl Supports<GraphicsOrCompute> for Graphics {
    open spec fn supported(self) -> bool {
        true
    }

    fn supports(self) -> (r: bool) { true }
}

impl Supports<GraphicsOrCompute> for Compute {
    open spec fn supported(self) -> bool {
        true
    }

    fn supports(self) -> (r: bool) { true }
}

impl Supports<GraphicsOrCompute> for General {
    open spec fn supported(self) -> bool {
        true
    }

    fn supports(self) -> (r: bool) { true }
}

impl Supports<GraphicsOrCompute> for Capability {
    open spec fn supported(self) -> bool {
        self.spec_supports(Capability::Graphics) || self.spec_supports(Capability::Compute)
    }

    fn supports(self) -> (r: bool) {
        Capability::supports(self, Capability::Graphics) || Capability::supports(self, Capability::Compute)
    }
}

impl Supports<Graphics> for Graphics {
    open spec fn supported(self) -> bool {
        true
    }

    fn supports(self) -> (r: bool) { true }
}

impl Supports<Graphics> for General {
    open spec fn supported(self) -> bool {
        true
    }

    fn supports(self) -> (r: bool) { true }
}

impl Supports<Graphics> for Capability {
    open spec fn supported(self) -> bool {
        self.spec_supports(Capability::Graphics)
    }

    fn supports(self) -> (r: bool) {
        Capability::supports(self, Capability::Graphics)
    }
}

impl Supports<Compute> for Compute {
    open spec fn supported(self) -> bool {
        true
    }

    fn supports(self) -> (r: bool) { true }
}

impl Supports<Compute> for General {
    open spec fn supported(self) -> bool {
        true
    }

    fn supports(self) -> (r: bool) { true }
}

impl Supports<Compute> for Capability {
    open spec fn supported(self) -> bool {
        self.spec_supports(Capability::Compute)
    }

    fn supports(self) -> (r: bool) {
        Capability::supports(self, Capability::Compute)
    }
}

impl From<Transfer> for Capability {
    fn from(t: Transfer) -> (r: Self) {
        Capability::Transfer
    }
}

impl vstd::std_specs::convert::FromSpecImpl<Transfer> for Capability {
    open spec fn obeys_from_spec() -> bool { true }
    open spec fn from_spec(v: Transfer) -> Self { Capability::Transfer }
}

impl From<Graphics> for Capability {
    fn from(g: Graphics) -> (r: Self) {
        Capability::Graphics
    }
}

impl vstd::std_specs::convert::FromSpecImpl<Graphics> for Capability {
    open spec fn obeys_from_spec() -> bool { true }
    open spec fn from_spec(v: Graphics) -> Self { Capability::Graphics }
}

impl From<Compute> for Capability {
    fn from(c: Compute) -> (r: Self) {
        Capability::Compute
    }
}

impl vstd::std_specs::convert::FromSpecImpl<Compute> for Capability {
    open spec fn obeys_from_spec() -> bool { true }
    open spec fn from_spec(v: Compute) -> Self { Capability::Compute }
}

impl From<General> for Capability {
    fn from(g: General) -> (r: Self) {
        Capability::General
    }
}

impl vstd::std_specs::convert::FromSpecImpl<General> for Capability {
    open spec fn obeys_from_spec() -> bool { true }
    open spec fn from_spec(v: General) -> Self { Capability::General }
}

/// Every capability supports itself.
pub proof fn lemma_supports_reflexive(c: Capability)
    ensures
        c.spec_supports(c),
{
}

/// Support is transitive: a capability that supports another also supports
/// everything the other one supports.
pub proof fn lemma_supports_transitive(a: Capability, b: Capability, c: Capability)
    requires
        a.spec_supports(b),
        b.spec_supports(c),
    ensures
        a.spec_supports(c),
{
}

/// Every capability supports transfers, and `General` supports every capability.
pub proof fn lemma_transfer_universal_general_top(c: Capability)
    ensures
        c.spec_supports(Capability::Transfer),
        Capability::General.spec_supports(c),
{
}

/// The capability derived from queue flags supports each of the operations
/// whose bit is set.
pub proof fn lemma_queue_flags_capability_supports(flags: u32)
    ensures
        flags & vulkan::QUEUE_GRAPHICS != 0 ==> Capability::spec_from_queue_flags(flags).spec_supports(Capability::Graphics),
        flags & vulkan::QUEUE_COMPUTE != 0 ==> Capability::spec_from_queue_flags(flags).spec_supports(Capability::Compute),
        Capability::spec_from_queue_flags(flags).spec_supports(Capability::Transfer),
{
}

} // verus!
