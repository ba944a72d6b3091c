use vstd::prelude::*;

verus! {

/// Length of a display mode name, in bytes.
pub const DRM_DISPLAY_MODE_LEN: usize = 32;

/// A display mode timing record.
#[derive(Debug, Default, Clone, Copy, Hash, Eq, PartialEq)]
pub struct DrmModeModeInfo {
    pub clock: u32,
    pub hdisplay: u16,
    pub hsync_start: u16,
    pub hsync_end: u16,
    pub htotal: u16,
    pub hskew: u16,
    pub vdisplay: u16,
    pub vsync_start: u16,
    pub vsync_end: u16,
    pub vtotal: u16,
    pub vscan: u16,
    pub vrefresh: u32,
    pub flags: u32,
    pub type_: u32,
    pub name: [u8; DRM_DISPLAY_MODE_LEN],
}

/// Compares two modes field by field, the name byte by byte.
pub fn mode_eq(a: &DrmModeModeInfo, b: &DrmModeModeInfo) -> (r: bool)
    ensures
        r == (*a == *b),
{
    if a.clock != b.clock || a.hdisplay != b.hdisplay || a.hsync_start != b.hsync_start
        || a.hsync_end != b.hsync_end || a.htotal != b.htotal || a.hskew != b.hskew
        || a.vdisplay != b.vdisplay || a.vsync_start != b.vsync_start
        || a.vsync_end != b.vsync_end || a.vtotal != b.vtotal || a.vscan != b.vscan
        || a.vrefresh != b.vrefresh || a.flags != b.flags || a.type_ != b.type_ {
        return false;
    }
    let mut i: usize = 0;
    while i < DRM_DISPLAY_MODE_LEN
        invariant
            i <= 32,
            forall|j: int| 0 <= j < i ==> a.name@[j] == b.name@[j],
        decreases 32 - i,
    {
        if a.name[i] != b.name[i] {
            return false;
        }
        i = i + 1;
    }
    assert(a.name@ =~= b.name@);
    assert(a.name == b.name);
    true
}

/// The bytes of the name "1280x800", padded with zeros.
pub open spec fn fake_mode_name() -> Seq<u8> {
    seq![0x31u8, 0x32u8, 0x38u8, 0x30u8, 0x78u8, 0x38u8, 0x30u8, 0x30u8].add(
        Seq::new(24, |i: int| 0u8),
    )
}

/// A fixed 1280x800 at 60 Hz mode for bring-up, not read from any display.
pub fn fake_modeinfo() -> (r: DrmModeModeInfo)
    ensures
        r.clock == 65000,
        r.hdisplay == 1280,
        r.hsync_start == 1048,
        r.hsync_end == 1184,
        r.htotal == 1344,
        r.hskew == 0,
        r.vdisplay == 800,
        r.vsync_start == 771,
        r.vsync_end == 777,
        r.vtotal == 806,
        r.vscan == 0,
        r.vrefresh == 60,
        r.flags == 0x5,
        r.type_ == 0x40,
        r.name@ == fake_mode_name(),
{
    let mut name = [0u8; 32];
    name[0] = 0x31;
    name[1] = 0x32;
    name[2] = 0x38;
    name[3] = 0x30;
    name[4] = 0x78;
    name[5] = 0x38;
    name[6] = 0x30;
    name[7] = 0x30;
    assert(name@ =~= fake_mode_name());
    DrmModeModeInfo {
        clock: 65000,
        hdisplay: 1280,
        hsync_start: 1048,
        hsync_end: 1184,
        htotal: 1344,
        hskew: 0,
        vdisplay: 800,
        vsync_start: 771,
        vsync_end: 777,
        vtotal: 806,
        vscan: 0,
        vrefresh: 60,
        flags: 0x5,
        type_: 0x40,
        name,
    }
}

} // verus!
