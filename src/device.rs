use vstd::prelude::*;
use vstd::string::*;
use crate::error::DrmError;
use crate::features::{contains_bits, DrmDriverFeatures, FEATURE_COMPUTE_ACCEL, FEATURE_RENDER};
use crate::gem::DrmGemObject;
use crate::id_map::IdMap;
use crate::mode_config::DrmModeConfig;
use crate::names::{decimal, with_decimal};

verus! {

/// How a driver creates dumb buffers.
#[derive(Clone, Copy, PartialEq, Eq, Debug, Structural)]
pub enum DumbCreateProvider {
    /// Over anonymous memory.
    Memfd,
}

/// The optional operations of a driver.
#[derive(Clone, Copy, PartialEq, Eq, Debug, Structural)]
pub struct DrmDriverOps {
    /// Creates dumb buffers; absent when the driver has none.
    pub dumb_create: Option<DumbCreateProvider>,
}

/// `a` with the operations that `b` has put over it.
pub open spec fn merge_spec(a: DrmDriverOps, b: DrmDriverOps) -> DrmDriverOps {
    DrmDriverOps { dumb_create: if b.dumb_create is Some { b.dumb_create } else { a.dumb_create } }
}

/// Merges each set of operations with the merge of those after it, the last
/// being `base`: per field, the last one present wins.
pub open spec fn merge_all_spec(ops: Seq<DrmDriverOps>, base: DrmDriverOps) -> DrmDriverOps
    decreases ops.len(),
{
    if ops.len() == 0 {
        base
    } else {
        merge_spec(ops[0], merge_all_spec(ops.drop_first(), base))
    }
}

impl DrmDriverOps {
    /// No optional operation.
    pub fn empty() -> (r: DrmDriverOps)
        ensures
            r.dumb_create is None,
    {
        DrmDriverOps { dumb_create: None }
    }

    /// Each field of `other` that is present replaces that of `self`.
    pub fn merge(self, other: DrmDriverOps) -> (r: DrmDriverOps)
        ensures
            r == merge_spec(self, other),
    {
        DrmDriverOps {
            dumb_create: if other.dumb_create.is_some() { other.dumb_create } else { self.dumb_create },
        }
    }

    /// Folds a list of operation sets over a base, as `merge` of each with
    /// the fold of the rest.
    pub fn merge_all(ops: &[DrmDriverOps], base: DrmDriverOps) -> (r: DrmDriverOps)
        ensures
            r == merge_all_spec(ops@, base),
    {
        let mut acc = base;
        let mut i: usize = ops.len();
        while i > 0
            invariant
                i <= ops@.len(),
                acc == merge_all_spec(ops@.subrange(i as int, ops@.len() as int), base),
            decreases i,
        {
            let ghost rest = ops@.subrange(i as int, ops@.len() as int);
            i = i - 1;
            acc = ops[i].merge(acc);
            proof {
                let s = ops@.subrange(i as int, ops@.len() as int);
                assert(s.drop_first() =~= rest);
                assert(s[0] == ops@[i as int]);
            }
        }
        proof {
            assert(ops@.subrange(0, ops@.len() as int) =~= ops@);
        }
        acc
    }
}

/// A driver for a class of devices: its identity, the features it
/// advertises, its optional operations, and how it builds a device.
pub trait DrmDriver {
    fn name(&self) -> &str;

    fn desc(&self) -> &str;

    fn date(&self) -> &str;

    /// Builds the device of the given index, with its object graph.
    fn create_device(&self, index: u32) -> Result<DrmDevice, DrmError>;

    /// The features of every device this driver creates.
    fn driver_features(&self) -> DrmDriverFeatures;

    /// Handles a driver-private command. Accepts anything unless the driver
    /// says otherwise.
    fn handle_command(&self, _cmd: u32, _data: usize) -> Result<(), DrmError> {
        Ok(())
    }

    fn driver_ops(&self) -> DrmDriverOps;
}

/// Mapping offsets are handed out in steps of one page.
pub const OFFSET_STEP: u64 = 4096;

/// The buffer key that a mapping offset resolves to in an offset table.
pub open spec fn offset_target(offsets: Map<u32, u64>, offset: u64) -> Option<u64> {
    if offset % OFFSET_STEP == 0 && offset / OFFSET_STEP <= u32::MAX as u64 && offsets.dom().contains(
        (offset / OFFSET_STEP) as u32,
    ) {
        Some(offsets[(offset / OFFSET_STEP) as u32])
    } else {
        None
    }
}

/// One GPU instance: its driver's identity and operations, its features,
/// its object registry, its buffer objects and the table of mapping
/// offsets.
#[derive(Debug)]
pub struct DrmDevice {
    pub index: u32,
    pub name: Vec<u8>,
    pub desc: Vec<u8>,
    pub date: Vec<u8>,
    pub driver_features: DrmDriverFeatures,
    pub driver_ops: DrmDriverOps,
    pub mode_config: DrmModeConfig,
    /// Buffer objects, keyed by position; a buffer stays when released.
    pub buffers: Vec<DrmGemObject>,
    /// Mapping slot (offset / `OFFSET_STEP`) to buffer key.
    pub offsets: IdMap,
    pub next_offset_slot: u32,
    /// The legacy scanout surface, when one is configured.
    pub scanout: Option<Vec<u8>>,
}

impl DrmDevice {
    pub open spec fn wf(&self) -> bool {
        &&& self.mode_config.wf()
        &&& self.offsets@.dom().finite()
        &&& forall|s: u32| #[trigger] self.offsets@.dom().contains(s) ==> s < self.next_offset_slot
    }

    /// A device with no buffers and no mapping offsets.
    pub fn new(
        index: u32,
        name: &str,
        desc: &str,
        date: &str,
        driver_features: DrmDriverFeatures,
        driver_ops: DrmDriverOps,
        mode_config: DrmModeConfig,
    ) -> (r: DrmDevice)
        requires
            mode_config.wf(),
        ensures
            r.wf(),
            r.index == index,
            r.name@ == name.spec_bytes(),
            r.desc@ == desc.spec_bytes(),
            r.date@ == date.spec_bytes(),
            r.driver_features == driver_features,
            r.driver_ops == driver_ops,
            r.mode_config == mode_config,
            r.buffers@.len() == 0,
            r.offsets@.dom().len() == 0,
            r.next_offset_slot == 0,
            r.scanout is None,
    {
        DrmDevice {
            index,
            name: name.as_bytes_vec(),
            desc: desc.as_bytes_vec(),
            date: date.as_bytes_vec(),
            driver_features,
            driver_ops,
            mode_config,
            buffers: Vec::new(),
            offsets: IdMap::new(),
            next_offset_slot: 0,
            scanout: None,
        }
    }

    /// A device of `driver`, with the driver's identity, features and
    /// operations.
    pub fn from_driver<D: DrmDriver>(index: u32, driver: &D, mode_config: DrmModeConfig) -> (r: DrmDevice)
        requires
            mode_config.wf(),
        ensures
            r.wf(),
            r.index == index,
            r.mode_config == mode_config,
            r.buffers@.len() == 0,
            r.offsets@.dom().len() == 0,
            r.scanout is None,
    {
        let features = driver.driver_features();
        let ops = driver.driver_ops();
        DrmDevice::new(index, driver.name(), driver.desc(), driver.date(), features, ops, mode_config)
    }

    pub fn resources(&self) -> (r: &DrmModeConfig)
        ensures
            *r == self.mode_config,
    {
        &self.mode_config
    }

    /// Whether every bit of `flags` is among the device's features.
    pub fn check_feature(&self, flags: u32) -> (r: bool)
        ensures
            r == contains_bits(self.driver_features.bits, flags),
    {
        self.driver_features.contains(flags)
    }

    /// Attaches the legacy scanout surface, or detaches it.
    pub fn set_scanout(&mut self, surface: Option<Vec<u8>>)
        ensures
            final(self).scanout == surface,
            final(self).mode_config == old(self).mode_config,
            final(self).buffers == old(self).buffers,
            final(self).offsets == old(self).offsets,
            final(self).next_offset_slot == old(self).next_offset_slot,
            final(self).driver_features == old(self).driver_features,
    {
        self.scanout = surface;
    }

    /// Stores a buffer object; its key is its position.
    pub fn add_buffer(&mut self, gem: DrmGemObject) -> (r: u64)
        requires
            old(self).buffers@.len() < u64::MAX,
        ensures
            r == old(self).buffers@.len(),
            final(self).buffers@ == old(self).buffers@.push(gem),
            final(self).mode_config == old(self).mode_config,
            final(self).offsets == old(self).offsets,
            final(self).next_offset_slot == old(self).next_offset_slot,
            final(self).driver_features == old(self).driver_features,
            final(self).driver_ops == old(self).driver_ops,
            final(self).scanout == old(self).scanout,
    {
        let key = self.buffers.len() as u64;
        self.buffers.push(gem);
        key
    }

    /// Hands out a fresh mapping offset for the buffer with key `key`.
    pub fn create_offset(&mut self, key: u64) -> (r: Result<u64, DrmError>)
        requires
            old(self).wf(),
        ensures
            final(self).wf(),
            final(self).mode_config == old(self).mode_config,
            final(self).buffers == old(self).buffers,
            final(self).driver_features == old(self).driver_features,
            final(self).driver_ops == old(self).driver_ops,
            final(self).scanout == old(self).scanout,
            match r {
                Ok(off) => off == old(self).next_offset_slot as u64 * OFFSET_STEP
                    && final(self).offsets@ == old(self).offsets@.insert(old(self).next_offset_slot, key)
                    && final(self).next_offset_slot == old(self).next_offset_slot + 1
                    && !old(self).offsets@.dom().contains(old(self).next_offset_slot)
                    && offset_target(final(self).offsets@, off) == Some(key),
                Err(e) => e == DrmError::Exhausted && old(self).next_offset_slot == u32::MAX
                    && *final(self) == *old(self),
            },
    {
        if self.next_offset_slot == u32::MAX {
            return Err(DrmError::Exhausted);
        }
        let slot = self.next_offset_slot;
        self.offsets.insert(slot, key);
        self.next_offset_slot = slot + 1;
        let off = slot as u64 * OFFSET_STEP;
        proof {
            assert(off % OFFSET_STEP == 0);
            assert(off / OFFSET_STEP == slot as u64);
        }
        Ok(off)
    }

    /// The buffer key a mapping offset resolves to.
    pub fn lookup_offset(&self, offset: u64) -> (r: Option<u64>)
        ensures
            r == offset_target(self.offsets@, offset),
    {
        if offset % OFFSET_STEP != 0 || offset / OFFSET_STEP > u32::MAX as u64 {
            return None;
        }
        self.offsets.get((offset / OFFSET_STEP) as u32)
    }

    /// The bytes a mapping at `offset` shows: those of the buffer the offset
    /// resolves to. An offset that resolves to nothing is invalid.
    pub fn mappable_with_offset(&self, offset: u64) -> (r: Result<&[u8], DrmError>)
        ensures
            r is Ok <==> (offset_target(self.offsets@, offset) matches Some(k) && k < self.buffers@.len()),
            r matches Ok(b) ==> (offset_target(self.offsets@, offset) matches Some(k) && b@
                == self.buffers@[k as int].contents()),
            r matches Err(e) ==> e == DrmError::InvalidArgument,
    {
        let key = match self.lookup_offset(offset) {
            Some(k) => k,
            None => return Err(DrmError::InvalidArgument),
        };
        if key >= self.buffers.len() as u64 {
            return Err(DrmError::InvalidArgument);
        }
        match self.buffers[key as usize].downcast_ref() {
            Some(memfd) => Ok(memfd.mappable()),
            None => Err(DrmError::InvalidArgument),
        }
    }

    /// Drops every mapping offset that resolves to the buffer with key `key`.
    pub fn remove_offset(&mut self, key: u64)
        requires
            old(self).wf(),
        ensures
            final(self).wf(),
            final(self).mode_config == old(self).mode_config,
            final(self).buffers == old(self).buffers,
            final(self).driver_features == old(self).driver_features,
            final(self).driver_ops == old(self).driver_ops,
            final(self).scanout == old(self).scanout,
            final(self).next_offset_slot == old(self).next_offset_slot,
            forall|s: u32| #[trigger] final(self).offsets@.dom().contains(s) <==> old(self).offsets@.dom().contains(s)
                && old(self).offsets@[s] != key,
            forall|s: u32| #[trigger] final(self).offsets@.dom().contains(s) ==> final(self).offsets@[s]
                == old(self).offsets@[s],
    {
        let slots = self.offsets.keys();
        let mut i: usize = 0;
        while i < slots.len()
            invariant
                i <= slots@.len(),
                slots@.to_set() == old(self).offsets@.dom(),
                slots@.no_duplicates(),
                self.mode_config == old(self).mode_config,
                self.buffers == old(self).buffers,
                self.driver_features == old(self).driver_features,
                self.driver_ops == old(self).driver_ops,
                self.scanout == old(self).scanout,
                self.next_offset_slot == old(self).next_offset_slot,
                self.offsets@.dom().finite(),
                forall|s: u32| #[trigger] self.offsets@.dom().contains(s) ==> self.offsets@[s] == old(self).offsets@[s]
                    && old(self).offsets@.dom().contains(s),
                forall|s: u32| old(self).offsets@.dom().contains(s) && (old(self).offsets@[s] != key || !slots@.subrange(0, i as int).contains(s))
                    ==> #[trigger] self.offsets@.dom().contains(s),
                forall|j: int| 0 <= j < i ==> !(#[trigger] self.offsets@.dom().contains(slots@[j]) && self.offsets@[slots@[j]] == key),
            decreases slots@.len() - i,
        {
            let s = slots[i];
            proof {
                assert(slots@.to_set().contains(s));
            }
            match self.offsets.get(s) {
                Some(k) => {
                    if k == key {
                        self.offsets.remove(s);
                    }
                },
                None => {},
            }
            proof {
                assert forall|s2: u32| old(self).offsets@.dom().contains(s2) && (old(self).offsets@[s2] != key || !slots@.subrange(0, i + 1).contains(s2))
                    implies #[trigger] self.offsets@.dom().contains(s2) by {
                    if s2 != s {
                        if slots@.subrange(0, i as int).contains(s2) {
                            let j = choose|j: int| 0 <= j < i && slots@.subrange(0, i as int)[j] == s2;
                            assert(slots@.subrange(0, i + 1)[j] == s2);
                        }
                    } else {
                        assert(slots@.subrange(0, i + 1)[i as int] == s2);
                    }
                }
            }
            i = i + 1;
        }
        proof {
            assert forall|s: u32| #[trigger] self.offsets@.dom().contains(s) <==> old(self).offsets@.dom().contains(s)
                && old(self).offsets@[s] != key by {
                if old(self).offsets@.dom().contains(s) && old(self).offsets@[s] == key {
                    assert(slots@.to_set().contains(s));
                    let j = choose|j: int| 0 <= j < slots@.len() && slots@[j] == s;
                    assert(!(self.offsets@.dom().contains(slots@[j]) && self.offsets@[slots@[j]] == key));
                }
                if old(self).offsets@.dom().contains(s) && old(self).offsets@[s] != key {
                    assert(self.offsets@.dom().contains(s));
                }
            }
        }
    }
}

/// The kind of a userspace access point of a device.
#[derive(Debug, Clone, Copy, PartialEq, Eq, Structural)]
pub enum DrmMinorType {
    Primary,
    Control,
    Render,
    Accel,
}

/// The number of each access-point kind on the wire.
pub open spec fn minor_type_code(t: DrmMinorType) -> u32 {
    match t {
        DrmMinorType::Primary => 0,
        DrmMinorType::Control => 1,
        DrmMinorType::Render => 2,
        DrmMinorType::Accel => 32,
    }
}

impl DrmMinorType {
    pub fn code(&self) -> (r: u32)
        ensures
            r == minor_type_code(*self),
    {
        match self {
            DrmMinorType::Primary => 0,
            DrmMinorType::Control => 1,
            DrmMinorType::Render => 2,
            DrmMinorType::Accel => 32,
        }
    }
}

/// Major number of display device nodes.
pub const DRM_MAJOR_ID: u16 = 226;
/// Render nodes number their minors from here.
pub const RENDER_MINOR_BASE: u32 = 128;

/// The node path of an access point, relative to the device directory.
pub open spec fn node_path(t: DrmMinorType, index: u32) -> Option<Seq<char>> {
    match t {
        DrmMinorType::Primary => Some(seq!['d', 'r', 'i', '/', 'c', 'a', 'r', 'd'].add(decimal(index as nat))),
        DrmMinorType::Render => Some(
            seq!['d', 'r', 'i', '/', 'r', 'e', 'n', 'd', 'e', 'r'].add(decimal(128 + index as nat)),
        ),
        DrmMinorType::Control => Some(
            seq!['d', 'r', 'i', '/', 'c', 'o', 'n', 't', 'r', 'o', 'l', 'D'].add(decimal(index as nat)),
        ),
        DrmMinorType::Accel => None,
    }
}

/// A userspace access point of a device; it carries the device's index.
#[derive(Debug, Clone, Copy, PartialEq, Eq, Structural)]
pub struct DrmMinor {
    pub index: u32,
    pub type_: DrmMinorType,
}

impl DrmMinor {
    pub fn new(device: &DrmDevice, type_: DrmMinorType) -> (r: DrmMinor)
        ensures
            r.index == device.index,
            r.type_ == type_,
    {
        DrmMinor { index: device.index, type_ }
    }

    /// The device number: major 226, minor the index (plus 128 for a render
    /// node). None when that minor does not fit in 32 bits.
    pub fn id(&self) -> (r: Option<(u16, u32)>)
        ensures
            r == (if self.type_ == DrmMinorType::Render {
                if self.index + 128 <= u32::MAX {
                    Some((DRM_MAJOR_ID, (self.index + 128) as u32))
                } else {
                    None::<(u16, u32)>
                }
            } else {
                Some((DRM_MAJOR_ID, self.index))
            }),
    {
        match self.type_ {
            DrmMinorType::Render => {
                if self.index > u32::MAX - RENDER_MINOR_BASE {
                    None
                } else {
                    Some((DRM_MAJOR_ID, self.index + RENDER_MINOR_BASE))
                }
            },
            _ => Some((DRM_MAJOR_ID, self.index)),
        }
    }

    /// The node path: "dri/cardN", "dri/render(128+N)", "dri/controlDN",
    /// none for an accelerator node.
    pub fn devtmpfs_path(&self) -> (r: Option<String>)
        ensures
            match r {
                Some(p) => node_path(self.type_, self.index) == Some(p@),
                None => node_path(self.type_, self.index) is None || (self.type_ == DrmMinorType::Render
                    && self.index + 128 > u32::MAX),
            },
    {
        proof {
            reveal_strlit("dri/card");
            reveal_strlit("dri/render");
            reveal_strlit("dri/controlD");
        }
        match self.type_ {
            DrmMinorType::Primary => Some(with_decimal("dri/card", self.index)),
            DrmMinorType::Render => {
                if self.index > u32::MAX - RENDER_MINOR_BASE {
                    None
                } else {
                    Some(with_decimal("dri/render", self.index + RENDER_MINOR_BASE))
                }
            },
            DrmMinorType::Control => Some(with_decimal("dri/controlD", self.index)),
            DrmMinorType::Accel => None,
        }
    }
}

/// The access points a device gets: an accelerator node alone for a compute
/// accelerator; otherwise a render node when the device renders, then a
/// primary node.
pub open spec fn minor_types(features: u32) -> Seq<DrmMinorType> {
    if contains_bits(features, FEATURE_COMPUTE_ACCEL) {
        seq![DrmMinorType::Accel]
    } else if contains_bits(features, FEATURE_RENDER) {
        seq![DrmMinorType::Render, DrmMinorType::Primary]
    } else {
        seq![DrmMinorType::Primary]
    }
}

/// The access points to register for a device, in order.
pub fn drm_dev_register(device: &DrmDevice) -> (r: Vec<DrmMinor>)
    ensures
        r@.len() == minor_types(device.driver_features.bits).len(),
        forall|i: int| 0 <= i < r@.len() ==> #[trigger] r@[i] == (DrmMinor {
            index: device.index,
            type_: minor_types(device.driver_features.bits)[i],
        }),
{
    let mut minors: Vec<DrmMinor> = Vec::new();
    if device.check_feature(FEATURE_COMPUTE_ACCEL) {
        minors.push(DrmMinor::new(device, DrmMinorType::Accel));
    } else {
        if device.check_feature(FEATURE_RENDER) {
            minors.push(DrmMinor::new(device, DrmMinorType::Render));
        }
        minors.push(DrmMinor::new(device, DrmMinorType::Primary));
    }
    minors
}

} // verus!
