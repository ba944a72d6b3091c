use vstd::prelude::*;

verus! {

/// Feature bit: the driver manages buffer objects.
pub const FEATURE_GEM: u32 = 0x1;
/// Feature bit: the driver supports mode setting.
pub const FEATURE_MODESET: u32 = 0x2;
/// Feature bit: the device exposes a render node.
pub const FEATURE_RENDER: u32 = 0x8;
/// Feature bit: the driver supports atomic mode setting.
pub const FEATURE_ATOMIC: u32 = 0x10;
/// Feature bit: synchronisation objects.
pub const FEATURE_SYNCOBJ: u32 = 0x20;
/// Feature bit: timeline synchronisation objects.
pub const FEATURE_SYNCOBJ_TIMELINE: u32 = 0x40;
/// Feature bit: a compute accelerator rather than a display device.
pub const FEATURE_COMPUTE_ACCEL: u32 = 0x80;
/// Feature bit: GPU virtual address management.
pub const FEATURE_GEM_GPUVA: u32 = 0x100;
/// Feature bit: the cursor plane carries a hotspot.
pub const FEATURE_CURSOR_HOTSPOT: u32 = 0x200;
/// Legacy feature bits.
pub const FEATURE_USE_AGP: u32 = 0x200_0000;
pub const FEATURE_LEGACY: u32 = 0x400_0000;
pub const FEATURE_PCI_DMA: u32 = 0x800_0000;
pub const FEATURE_SG: u32 = 0x1000_0000;
pub const FEATURE_HAVE_DMA: u32 = 0x2000_0000;
pub const FEATURE_HAVE_IRQ: u32 = 0x4000_0000;

/// The set of features that a driver advertises, as a bit set.
#[derive(Clone, Copy, PartialEq, Eq, Debug, Structural)]
pub struct DrmDriverFeatures {
    pub bits: u32,
}

/// Every bit of `flags` is set in `bits`.
pub open spec fn contains_bits(bits: u32, flags: u32) -> bool {
    bits & flags == flags
}

impl DrmDriverFeatures {
    pub fn from_bits(bits: u32) -> (r: DrmDriverFeatures)
        ensures
            r.bits == bits,
    {
        DrmDriverFeatures { bits }
    }

    pub fn empty() -> (r: DrmDriverFeatures)
        ensures
            r.bits == 0,
    {
        DrmDriverFeatures { bits: 0 }
    }

    pub fn bits(&self) -> (r: u32)
        ensures
            r == self.bits,
    {
        self.bits
    }

    /// The set with the bits of `flags` added.
    pub fn with(self, flags: u32) -> (r: DrmDriverFeatures)
        ensures
            r.bits == self.bits | flags,
    {
        DrmDriverFeatures { bits: self.bits | flags }
    }

    /// Bit-set containment: every bit of `flags` is set.
    pub fn contains(&self, flags: u32) -> (r: bool)
        ensures
            r == contains_bits(self.bits, flags),
    {
        self.bits & flags == flags
    }
}

} // verus!
