//! Capability bit sets that a plugin or a plugin manager advertises to the
//! host, with intersection-based query methods.

use vstd::prelude::*;
use vstd::std_specs::ops::BitOrSpec;

verus! {

/// Bit for a plugin that reports values on the host's schedule.
pub const CAP_READ: u32 = 1;

/// Bit for a plugin that wants log callbacks.
pub const CAP_LOG: u32 = 2;

/// Bit for a plugin that accepts values from other plugins.
pub const CAP_WRITE: u32 = 4;

/// Bit for a plugin that supports flushing buffered writes.
pub const CAP_FLUSH: u32 = 8;

/// Bit for a manager that wants an init callback even absent configuration.
pub const CAP_INIT: u32 = 1;

/// Bitflags of capabilities that a plugin advertises to the host.
#[derive(Debug, Clone, Copy, PartialEq, Eq, Structural)]
pub struct PluginCapabilities {
    /// The raw bits of the set.
    pub bits: u32,
}

impl PluginCapabilities {
    /// The raw bits of the set.
    pub open spec fn spec_bits(self) -> u32 {
        self.bits
    }

    /// The empty capability set: such a plugin does nothing.
    pub fn empty() -> (r: PluginCapabilities)
        ensures
            r.spec_bits() == 0,
    {
        PluginCapabilities { bits: 0 }
    }

    /// The set holding only the read capability.
    pub fn read() -> (r: PluginCapabilities)
        ensures
            r.spec_bits() == CAP_READ,
    {
        PluginCapabilities { bits: CAP_READ }
    }

    /// The set holding only the log capability.
    pub fn log() -> (r: PluginCapabilities)
        ensures
            r.spec_bits() == CAP_LOG,
    {
        PluginCapabilities { bits: CAP_LOG }
    }

    /// The set holding only the write capability.
    pub fn write() -> (r: PluginCapabilities)
        ensures
            r.spec_bits() == CAP_WRITE,
    {
        PluginCapabilities { bits: CAP_WRITE }
    }

    /// The set holding only the flush capability.
    pub fn flush() -> (r: PluginCapabilities)
        ensures
            r.spec_bits() == CAP_FLUSH,
    {
        PluginCapabilities { bits: CAP_FLUSH }
    }

    /// True when the set holds the read capability.
    pub open spec fn spec_has_read(self) -> bool {
        self.spec_bits() & CAP_READ != 0
    }

    /// True when the set holds the log capability.
    pub open spec fn spec_has_log(self) -> bool {
        self.spec_bits() & CAP_LOG != 0
    }

    /// True when the set holds the write capability.
    pub open spec fn spec_has_write(self) -> bool {
        self.spec_bits() & CAP_WRITE != 0
    }

    /// True when the set holds the flush capability.
    pub open spec fn spec_has_flush(self) -> bool {
        self.spec_bits() & CAP_FLUSH != 0
    }

    /// Reports whether the set holds the read capability.
    pub fn has_read(self) -> (r: bool)
        ensures
            r == self.spec_has_read(),
    {
        self.bits & CAP_READ != 0
    }

    /// Reports whether the set holds the log capability.
    pub fn has_log(self) -> (r: bool)
        ensures
            r == self.spec_has_log(),
    {
        self.bits & CAP_LOG != 0
    }

    /// Reports whether the set holds the write capability.
    pub fn has_write(self) -> (r: bool)
        ensures
            r == self.spec_has_write(),
    {
        self.bits & CAP_WRITE != 0
    }

    /// Reports whether the set holds the flush capability.
    pub fn has_flush(self) -> (r: bool)
        ensures
            r == self.spec_has_flush(),
    {
        self.bits & CAP_FLUSH != 0
    }
}

impl Default for PluginCapabilities {
    /// By default a plugin advertises nothing.
    fn default() -> (r: Self)
        ensures
            r.spec_bits() == 0,
    {
        PluginCapabilities { bits: 0 }
    }
}

impl core::ops::BitOr for PluginCapabilities {
    type Output = PluginCapabilities;

    /// Set union of the two capability sets.
    fn bitor(self, rhs: PluginCapabilities) -> (r: PluginCapabilities) {
        PluginCapabilities { bits: self.bits | rhs.bits }
    }
}

impl vstd::std_specs::ops::BitOrSpecImpl for PluginCapabilities {
    open spec fn obeys_bitor_spec() -> bool {
        true
    }

    open spec fn bitor_req(self, rhs: PluginCapabilities) -> bool {
        true
    }

    open spec fn bitor_spec(self, rhs: PluginCapabilities) -> PluginCapabilities {
        PluginCapabilities { bits: self.bits | rhs.bits }
    }
}

/// Bitflags of capabilities that a plugin manager advertises to the host.
#[derive(Debug, Clone, Copy, PartialEq, Eq, Structural)]
pub struct PluginManagerCapabilities {
    /// The raw bits of the set.
    pub bits: u32,
}

impl PluginManagerCapabilities {
    /// The raw bits of the set.
    pub open spec fn spec_bits(self) -> u32 {
        self.bits
    }

    /// The empty capability set.
    pub fn empty() -> (r: PluginManagerCapabilities)
        ensures
            r.spec_bits() == 0,
    {
        PluginManagerCapabilities { bits: 0 }
    }

    /// The set holding only the init capability.
    pub fn init() -> (r: PluginManagerCapabilities)
        ensures
            r.spec_bits() == CAP_INIT,
    {
        PluginManagerCapabilities { bits: CAP_INIT }
    }

    /// True when the set holds the init capability.
    pub open spec fn spec_has_init(self) -> bool {
        self.spec_bits() & CAP_INIT != 0
    }

    /// Reports whether the set holds the init capability.
    pub fn has_init(self) -> (r: bool)
        ensures
            r == self.spec_has_init(),
    {
        self.bits & CAP_INIT != 0
    }
}

impl Default for PluginManagerCapabilities {
    /// By default a manager wants no callback.
    fn default() -> (r: Self)
        ensures
            r.spec_bits() == 0,
    {
        PluginManagerCapabilities { bits: 0 }
    }
}

impl core::ops::BitOr for PluginManagerCapabilities {
    type Output = PluginManagerCapabilities;

    /// Set union of the two capability sets.
    fn bitor(self, rhs: PluginManagerCapabilities) -> (r: PluginManagerCapabilities) {
        PluginManagerCapabilities { bits: self.bits | rhs.bits }
    }
}

impl vstd::std_specs::ops::BitOrSpecImpl for PluginManagerCapabilities {
    open spec fn obeys_bitor_spec() -> bool {
        true
    }

    open spec fn bitor_req(self, rhs: PluginManagerCapabilities) -> bool {
        true
    }

    open spec fn bitor_spec(self, rhs: PluginManagerCapabilities) -> PluginManagerCapabilities {
        PluginManagerCapabilities { bits: self.bits | rhs.bits }
    }
}

/// The union of two capability sets holds a capability exactly when one of
/// the two does.
pub proof fn lemma_union_intersections(a: PluginCapabilities, b: PluginCapabilities)
    ensures
        (a.bitor_spec(b)).spec_has_read() == (a.spec_has_read() || b.spec_has_read()),
        (a.bitor_spec(b)).spec_has_log() == (a.spec_has_log() || b.spec_has_log()),
        (a.bitor_spec(b)).spec_has_write() == (a.spec_has_write() || b.spec_has_write()),
        (a.bitor_spec(b)).spec_has_flush() == (a.spec_has_flush() || b.spec_has_flush()),
{
    let x = a.bits;
    let y = b.bits;
    assert((((x | y) & 1u32) != 0) == (((x & 1u32) != 0) || ((y & 1u32) != 0))) by (bit_vector);
    assert((((x | y) & 2u32) != 0) == (((x & 2u32) != 0) || ((y & 2u32) != 0))) by (bit_vector);
    assert((((x | y) & 4u32) != 0) == (((x & 4u32) != 0) || ((y & 4u32) != 0))) by (bit_vector);
    assert((((x | y) & 8u32) != 0) == (((x & 8u32) != 0) || ((y & 8u32) != 0))) by (bit_vector);
}

} // verus!
