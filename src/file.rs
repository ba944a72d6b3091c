use vstd::prelude::*;
use crate::device::{offset_target, DrmDevice, DrmMinor};
use crate::error::DrmError;
use crate::features::{
    contains_bits, FEATURE_ATOMIC, FEATURE_CURSOR_HOTSPOT, FEATURE_MODESET, FEATURE_SYNCOBJ,
    FEATURE_SYNCOBJ_TIMELINE,
};
use crate::gem::{dumb_create_impl, dumb_pitch, dumb_size, transfer_len};
use crate::id_map::IdMap;
use crate::mode::DrmModeModeInfo;
use crate::mode_config::{
    connector_at, connector_ids, crtc_at, crtc_ids, encoder_at, encoder_ids, framebuffer_at,
    framebuffer_ids, plane_fb_id, plane_ids, property_at, property_ids, DrmModeConfig,
    DrmModeObjectRef,
};
use crate::objects::{conn_type_code, encoder_type_code, status_code, DrmModeObject};
use crate::property::{
    enum_names_view, kind_count_enum_blobs, kind_count_values, object_type_tag, PropertyEnum,
    PropertyKind,
};
use crate::ioctl_defs::{
    DrmModeCrtc, DrmModeCursor, DrmModeFBCmd, DrmModeFbDirtyCmd, DrmModeGetConnector,
    DrmModeGetEncoder, DrmModeGetPlane, DrmModeGetPlaneRes, DrmModeGetProperty,
    DrmModeGetResources, DrmModeObjectGetProps,
};
use crate::ioctl_defs::{
    capability_of, client_cap_of, ClientCaps, DrmCapabilities, DrmGetCap, DrmModeCreateDumb,
    DrmModeDestroyDumb, DrmModeMapDumb, DrmSetClientCap, DrmVersion, PRIME_EXPORT, PRIME_IMPORT,
};

verus! {

/// The capabilities a client has declared on its session.
#[derive(Debug, Clone, Copy, PartialEq, Eq, Structural)]
pub struct ClientCapFlags {
    /// Stereo 3D mode flags may be exposed.
    pub stereo_allowed: bool,
    /// The client understands primary and cursor planes in the plane list.
    pub universal_planes: bool,
    /// The client understands atomic properties.
    pub atomic: bool,
    /// The client handles picture aspect ratios in modes.
    pub aspect_ratio_allowed: bool,
    /// The client understands writeback connectors.
    pub writeback_connectors: bool,
    /// The client handles a virtualized cursor plane.
    pub supports_virtualized_cursor_plane: bool,
}

/// The state of one open session: declared client capabilities, its
/// handle counter and its handle table (handle to buffer key).
#[derive(Debug)]
pub struct DrmFile {
    pub caps: ClientCapFlags,
    pub next_handle: u32,
    pub gem_table: IdMap,
}

/// The device advertises mode setting.
pub open spec fn modeset(dev: DrmDevice) -> bool {
    contains_bits(dev.driver_features.bits, FEATURE_MODESET)
}

/// The device's driver can create dumb buffers.
pub open spec fn has_dumb_create(dev: DrmDevice) -> bool {
    dev.driver_ops.dumb_create is Some
}

/// `b` is the device `a` with only its mode-setting registry possibly
/// changed.
pub open spec fn same_device_but_registry(a: DrmDevice, b: DrmDevice) -> bool {
    &&& b.index == a.index
    &&& b.name == a.name
    &&& b.desc == a.desc
    &&& b.date == a.date
    &&& b.driver_features == a.driver_features
    &&& b.driver_ops == a.driver_ops
    &&& b.buffers == a.buffers
    &&& b.offsets == a.offsets
    &&& b.next_offset_slot == a.next_offset_slot
    &&& b.scanout == a.scanout
}

/// `b` is the device `a` with only its scanout surface possibly changed.
pub open spec fn same_device_but_scanout(a: DrmDevice, b: DrmDevice) -> bool {
    &&& b.index == a.index
    &&& b.name == a.name
    &&& b.desc == a.desc
    &&& b.date == a.date
    &&& b.driver_features == a.driver_features
    &&& b.driver_ops == a.driver_ops
    &&& b.mode_config == a.mode_config
    &&& b.buffers == a.buffers
    &&& b.offsets == a.offsets
    &&& b.next_offset_slot == a.next_offset_slot
}

/// What a version query answers.
#[derive(Debug, Clone, Copy, PartialEq, Eq, Structural)]
pub enum VersionReply {
    /// A probe: the record with the three string lengths filled in.
    Lengths(DrmVersion),
    /// A fill: the driver's name, date and description are to be copied to
    /// the addresses of the record.
    Strings,
}

/// The value of a capability on a device, or none when the capability needs
/// mode setting that the device lacks.
pub open spec fn cap_value(dev: DrmDevice, cap: DrmCapabilities) -> Option<u64> {
    let cfg = dev.mode_config;
    match cap {
        DrmCapabilities::TimestampMonotonic => Some(1),
        DrmCapabilities::Prime => Some(PRIME_IMPORT | PRIME_EXPORT),
        DrmCapabilities::SyncObj => Some(
            if contains_bits(dev.driver_features.bits, FEATURE_SYNCOBJ) { 1 } else { 0 },
        ),
        DrmCapabilities::SyncObjTimeline => Some(
            if contains_bits(dev.driver_features.bits, FEATURE_SYNCOBJ_TIMELINE) { 1 } else { 0 },
        ),
        _ => if !modeset(dev) {
            None
        } else {
            match cap {
                DrmCapabilities::DumbBuffer => Some(if has_dumb_create(dev) { 1 } else { 0 }),
                DrmCapabilities::VblankHighCrtc => Some(1),
                DrmCapabilities::DumbPreferredDepth => Some(cfg.preferred_depth as u64),
                DrmCapabilities::DumbPreferShadow => Some(cfg.prefer_shadow as u64),
                DrmCapabilities::AsyncPageFlip => Some(if cfg.async_page_flip { 1 } else { 0 }),
                DrmCapabilities::PageFlipTarget => Some(0),
                DrmCapabilities::CursorWidth => Some(
                    if cfg.cursor_width == 0 { 64 } else { cfg.cursor_width as u64 },
                ),
                DrmCapabilities::CursorHeight => Some(
                    if cfg.cursor_height == 0 { 64 } else { cfg.cursor_height as u64 },
                ),
                DrmCapabilities::Addfb2Modifiers => Some(
                    if cfg.fb_modifiers_not_supported { 0 } else { 1 },
                ),
                DrmCapabilities::CrtcInVblankEvent => Some(1),
                DrmCapabilities::AtomicAsyncPageFlip => Some(
                    if contains_bits(dev.driver_features.bits, FEATURE_ATOMIC) && cfg.async_page_flip { 1 } else { 0 },
                ),
                _ => Some(0),
            }
        },
    }
}

/// The capabilities after a client declares capability `cap` with `value`,
/// on a device that has (or lacks) cursor hotspots; or why it is refused.
pub open spec fn apply_client_cap(caps: ClientCapFlags, hotspot: bool, cap: u64, value: u64) -> Result<
    ClientCapFlags,
    DrmError,
> {
    match client_cap_of(cap) {
        None => Err(DrmError::InvalidArgument),
        Some(ClientCaps::Stereo3D) => if value <= 1 {
            Ok(ClientCapFlags { stereo_allowed: value == 1, ..caps })
        } else {
            Err(DrmError::InvalidArgument)
        },
        Some(ClientCaps::UniversalPlane) => if value <= 1 {
            Ok(ClientCapFlags { universal_planes: value == 1, ..caps })
        } else {
            Err(DrmError::InvalidArgument)
        },
        Some(ClientCaps::Atomic) => if value <= 2 {
            Ok(
                ClientCapFlags {
                    atomic: value >= 1,
                    universal_planes: value >= 1,
                    aspect_ratio_allowed: value == 2,
                    ..caps
                },
            )
        } else {
            Err(DrmError::InvalidArgument)
        },
        Some(ClientCaps::AspectRatio) => if value <= 1 {
            Ok(ClientCapFlags { aspect_ratio_allowed: value == 1, ..caps })
        } else {
            Err(DrmError::InvalidArgument)
        },
        Some(ClientCaps::WritebackConnectors) => if !caps.atomic || value > 1 {
            Err(DrmError::InvalidArgument)
        } else {
            Ok(ClientCapFlags { writeback_connectors: value == 1, ..caps })
        },
        Some(ClientCaps::CursorPlaneHotspot) => if !hotspot {
            Err(DrmError::Unsupported)
        } else if !caps.atomic || value > 1 {
            Err(DrmError::InvalidArgument)
        } else {
            Ok(ClientCapFlags { supports_virtualized_cursor_plane: value == 1, ..caps })
        },
    }
}

impl DrmMinor {
    /// Opens a session on this access point.
    pub fn open(&self) -> (r: DrmFile)
        ensures
            r.caps == (ClientCapFlags {
                stereo_allowed: false,
                universal_planes: false,
                atomic: false,
                aspect_ratio_allowed: false,
                writeback_connectors: false,
                supports_virtualized_cursor_plane: false,
            }),
            r.next_handle == 1,
            r.gem_table@.dom().len() == 0,
            r.gem_table@.dom().finite(),
    {
        DrmFile::new()
    }
}

impl DrmFile {
    /// A session with no declared capability, no handle, and handles
    /// counted from 1.
    pub fn new() -> (r: DrmFile)
        ensures
            r.caps == (ClientCapFlags {
                stereo_allowed: false,
                universal_planes: false,
                atomic: false,
                aspect_ratio_allowed: false,
                writeback_connectors: false,
                supports_virtualized_cursor_plane: false,
            }),
            r.next_handle == 1,
            r.gem_table@.dom().len() == 0,
            r.gem_table@.dom().finite(),
    {
        DrmFile {
            caps: ClientCapFlags {
                stereo_allowed: false,
                universal_planes: false,
                atomic: false,
                aspect_ratio_allowed: false,
                writeback_connectors: false,
                supports_virtualized_cursor_plane: false,
            },
            next_handle: 1,
            gem_table: IdMap::new(),
        }
    }

    /// The buffer key under a handle of this session.
    pub fn lookup_gem(&self, handle: u32) -> (r: Option<u64>)
        ensures
            r == (if self.gem_table@.dom().contains(handle) { Some(self.gem_table@[handle]) } else { None::<u64> }),
    {
        self.gem_table.get(handle)
    }

    /// Driver identity: lengths on a probe; on a fill, whether each buffer
    /// can take its string.
    pub fn get_version(&self, dev: &DrmDevice, req: DrmVersion) -> (r: Result<VersionReply, DrmError>)
        ensures
            (req.name == 0 && req.date == 0 && req.desc == 0) ==> r == Ok::<VersionReply, DrmError>(
                VersionReply::Lengths(
                    DrmVersion {
                        name_len: dev.name@.len() as u64,
                        desc_len: dev.desc@.len() as u64,
                        date_len: dev.date@.len() as u64,
                        ..req
                    },
                ),
            ),
            !(req.name == 0 && req.date == 0 && req.desc == 0) ==> r == (if req.name_len
                >= dev.name@.len() && req.desc_len >= dev.desc@.len() && req.date_len >= dev.date@.len() {
                Ok::<VersionReply, DrmError>(VersionReply::Strings)
            } else {
                Err::<VersionReply, DrmError>(DrmError::InvalidArgument)
            }),
    {
        let name_len = dev.name.len() as u64;
        let desc_len = dev.desc.len() as u64;
        let date_len = dev.date.len() as u64;
        if req.is_first_call() {
            let mut out = req;
            out.name_len = name_len;
            out.desc_len = desc_len;
            out.date_len = date_len;
            Ok(VersionReply::Lengths(out))
        } else if req.name_len >= name_len && req.desc_len >= desc_len && req.date_len >= date_len {
            Ok(VersionReply::Strings)
        } else {
            Err(DrmError::InvalidArgument)
        }
    }

    /// Answers a capability query.
    pub fn get_cap(&self, dev: &DrmDevice, req: DrmGetCap) -> (r: Result<DrmGetCap, DrmError>)
        ensures
            r == (match capability_of(req.capability) {
                None => Err(DrmError::InvalidArgument),
                Some(c) => match cap_value(*dev, c) {
                    None => Err(DrmError::Unsupported),
                    Some(v) => Ok(DrmGetCap { capability: req.capability, value: v }),
                },
            }),
    {
        let cap = match DrmCapabilities::from_u64(req.capability) {
            Some(c) => c,
            None => return Err(DrmError::InvalidArgument),
        };
        let value: u64 = match cap {
            DrmCapabilities::TimestampMonotonic => 1,
            DrmCapabilities::Prime => PRIME_IMPORT | PRIME_EXPORT,
            DrmCapabilities::SyncObj => if dev.check_feature(FEATURE_SYNCOBJ) { 1 } else { 0 },
            DrmCapabilities::SyncObjTimeline => if dev.check_feature(FEATURE_SYNCOBJ_TIMELINE) { 1 } else { 0 },
            _ => {
                if !dev.check_feature(FEATURE_MODESET) {
                    return Err(DrmError::Unsupported);
                }
                let cfg = dev.resources();
                match cap {
                    DrmCapabilities::DumbBuffer => if dev.driver_ops.dumb_create.is_some() { 1 } else { 0 },
                    DrmCapabilities::VblankHighCrtc => 1,
                    DrmCapabilities::DumbPreferredDepth => cfg.preferred_depth as u64,
                    DrmCapabilities::DumbPreferShadow => cfg.prefer_shadow as u64,
                    DrmCapabilities::AsyncPageFlip => if cfg.async_page_flip { 1 } else { 0 },
                    DrmCapabilities::PageFlipTarget => 0,
                    DrmCapabilities::CursorWidth => if cfg.cursor_width == 0 { 64 } else { cfg.cursor_width as u64 },
                    DrmCapabilities::CursorHeight => if cfg.cursor_height == 0 { 64 } else { cfg.cursor_height as u64 },
                    DrmCapabilities::Addfb2Modifiers => if cfg.fb_modifiers_not_supported { 0 } else { 1 },
                    DrmCapabilities::CrtcInVblankEvent => 1,
                    DrmCapabilities::AtomicAsyncPageFlip => {
                        if dev.check_feature(FEATURE_ATOMIC) && cfg.async_page_flip { 1 } else { 0 }
                    },
                    _ => 0,
                }
            },
        };
        Ok(DrmGetCap { capability: req.capability, value })
    }

    /// Records a client capability declaration; on refusal nothing changes.
    pub fn set_client_cap(&mut self, dev: &DrmDevice, req: DrmSetClientCap) -> (r: Result<(), DrmError>)
        ensures
            final(self).next_handle == old(self).next_handle,
            final(self).gem_table == old(self).gem_table,
            match apply_client_cap(
                old(self).caps,
                contains_bits(dev.driver_features.bits, FEATURE_CURSOR_HOTSPOT),
                req.capability,
                req.value,
            ) {
                Ok(c) => r is Ok && final(self).caps == c,
                Err(e) => r == Err::<(), DrmError>(e) && final(self).caps == old(self).caps,
            },
    {
        let v = req.value;
        match ClientCaps::from_u64(req.capability) {
            None => Err(DrmError::InvalidArgument),
            Some(ClientCaps::Stereo3D) => {
                if v > 1 {
                    return Err(DrmError::InvalidArgument);
                }
                self.caps.stereo_allowed = v == 1;
                Ok(())
            },
            Some(ClientCaps::UniversalPlane) => {
                if v > 1 {
                    return Err(DrmError::InvalidArgument);
                }
                self.caps.universal_planes = v == 1;
                Ok(())
            },
            Some(ClientCaps::Atomic) => {
                if v > 2 {
                    return Err(DrmError::InvalidArgument);
                }
                self.caps.atomic = v >= 1;
                self.caps.universal_planes = v >= 1;
                self.caps.aspect_ratio_allowed = v == 2;
                Ok(())
            },
            Some(ClientCaps::AspectRatio) => {
                if v > 1 {
                    return Err(DrmError::InvalidArgument);
                }
                self.caps.aspect_ratio_allowed = v == 1;
                Ok(())
            },
            Some(ClientCaps::WritebackConnectors) => {
                if !self.caps.atomic || v > 1 {
                    return Err(DrmError::InvalidArgument);
                }
                self.caps.writeback_connectors = v == 1;
                Ok(())
            },
            Some(ClientCaps::CursorPlaneHotspot) => {
                if !dev.check_feature(FEATURE_CURSOR_HOTSPOT) {
                    return Err(DrmError::Unsupported);
                }
                if !self.caps.atomic || v > 1 {
                    return Err(DrmError::InvalidArgument);
                }
                self.caps.supports_virtualized_cursor_plane = v == 1;
                Ok(())
            },
        }
    }

    /// Creates a dumb buffer through the driver's hook and stores it under
    /// the session's next handle.
    pub fn create_dumb(&mut self, dev: &mut DrmDevice, req: DrmModeCreateDumb) -> (r: Result<
        DrmModeCreateDumb,
        DrmError,
    >)
        requires
            old(dev).wf(),
        ensures
            final(dev).wf(),
            r is Ok <==> modeset(*old(dev)) && has_dumb_create(*old(dev)) && old(self).next_handle
                < u32::MAX && old(dev).buffers@.len() < u64::MAX && dumb_size(req.width, req.height, req.bpp) <= u32::MAX
                && dumb_pitch(req.width, req.bpp) <= u32::MAX,
            !modeset(*old(dev)) ==> r == Err::<DrmModeCreateDumb, DrmError>(DrmError::Unsupported),
            modeset(*old(dev)) && !has_dumb_create(*old(dev)) ==> r == Err::<DrmModeCreateDumb, DrmError>(
                DrmError::Unimplemented,
            ),
            match r {
                Ok(out) => out == (DrmModeCreateDumb {
                    handle: old(self).next_handle,
                    pitch: dumb_pitch(req.width, req.bpp) as u32,
                    size: dumb_size(req.width, req.height, req.bpp) as u64,
                    ..req
                }) && final(self).next_handle == old(self).next_handle + 1
                    && final(self).gem_table@ == old(self).gem_table@.insert(
                    old(self).next_handle,
                    old(dev).buffers@.len() as u64,
                ) && final(dev).buffers@.drop_last() == old(dev).buffers@
                    && final(dev).buffers@.len() == old(dev).buffers@.len() + 1
                    && final(dev).buffers@.last().size == out.size
                    && final(dev).buffers@.last().pitch == out.pitch
                    && final(dev).mode_config == old(dev).mode_config
                    && final(dev).offsets == old(dev).offsets
                    && final(dev).next_offset_slot == old(dev).next_offset_slot
                    && final(dev).scanout == old(dev).scanout
                    && final(self).caps == old(self).caps,
                Err(_) => *final(dev) == *old(dev) && final(self).next_handle == old(self).next_handle
                    && final(self).gem_table == old(self).gem_table && final(self).caps == old(self).caps,
            },
    {
        if !dev.check_feature(FEATURE_MODESET) {
            return Err(DrmError::Unsupported);
        }
        if dev.driver_ops.dumb_create.is_none() {
            return Err(DrmError::Unimplemented);
        }
        if self.next_handle == u32::MAX || dev.buffers.len() as u64 == u64::MAX {
            return Err(DrmError::Exhausted);
        }
        let gem = dumb_create_impl(req.width, req.height, req.bpp)?;
        let pitch = gem.pitch();
        let size = gem.size();
        let key = dev.add_buffer(gem);
        let handle = self.next_handle;
        self.next_handle = handle + 1;
        self.gem_table.insert(handle, key);
        let mut out = req;
        out.handle = handle;
        out.pitch = pitch;
        out.size = size;
        Ok(out)
    }

    /// Hands out a mapping offset for the buffer under a handle.
    pub fn map_dumb(&self, dev: &mut DrmDevice, req: DrmModeMapDumb) -> (r: Result<DrmModeMapDumb, DrmError>)
        requires
            old(dev).wf(),
        ensures
            final(dev).wf(),
            !modeset(*old(dev)) ==> r == Err::<DrmModeMapDumb, DrmError>(DrmError::Unsupported),
            modeset(*old(dev)) && !has_dumb_create(*old(dev)) ==> r == Err::<DrmModeMapDumb, DrmError>(
                DrmError::Unimplemented,
            ),
            modeset(*old(dev)) && has_dumb_create(*old(dev)) && !self.gem_table@.dom().contains(req.handle)
                ==> r == Err::<DrmModeMapDumb, DrmError>(DrmError::NotFound),
            r is Ok <==> modeset(*old(dev)) && has_dumb_create(*old(dev)) && self.gem_table@.dom().contains(
                req.handle,
            ) && old(dev).next_offset_slot < u32::MAX,
            match r {
                Ok(out) => out == (DrmModeMapDumb { offset: out.offset, ..req })
                    && offset_target(final(dev).offsets@, out.offset) == Some(self.gem_table@[req.handle])
                    && final(dev).mode_config == old(dev).mode_config
                    && final(dev).buffers == old(dev).buffers,
                Err(_) => *final(dev) == *old(dev),
            },
    {
        if !dev.check_feature(FEATURE_MODESET) {
            return Err(DrmError::Unsupported);
        }
        if dev.driver_ops.dumb_create.is_none() {
            return Err(DrmError::Unimplemented);
        }
        let key = match self.lookup_gem(req.handle) {
            Some(k) => k,
            None => return Err(DrmError::NotFound),
        };
        let offset = dev.create_offset(key)?;
        let mut out = req;
        out.offset = offset;
        Ok(out)
    }

    /// Drops a handle, releases the buffer's store and drops its mapping
    /// offsets. Other sessions' handles to the buffer stay.
    pub fn destroy_dumb(&mut self, dev: &mut DrmDevice, req: DrmModeDestroyDumb) -> (r: Result<(), DrmError>)
        requires
            old(dev).wf(),
        ensures
            final(dev).wf(),
            !modeset(*old(dev)) ==> r == Err::<(), DrmError>(DrmError::Unsupported),
            modeset(*old(dev)) && !has_dumb_create(*old(dev)) ==> r == Err::<(), DrmError>(DrmError::Unimplemented),
            r is Ok <==> modeset(*old(dev)) && has_dumb_create(*old(dev)) && old(self).gem_table@.dom().contains(
                req.handle,
            ),
            r is Err ==> *final(dev) == *old(dev) && final(self).gem_table@ == old(self).gem_table@,
            modeset(*old(dev)) && has_dumb_create(*old(dev)) && !old(self).gem_table@.dom().contains(req.handle)
                ==> r == Err::<(), DrmError>(DrmError::NotFound),
            r is Ok ==> final(self).gem_table@ == old(self).gem_table@.remove(req.handle)
                && final(dev).mode_config == old(dev).mode_config
                && final(dev).buffers@.len() == old(dev).buffers@.len()
                && (forall|s: u32| #[trigger] final(dev).offsets@.dom().contains(s) <==> old(dev).offsets@.dom().contains(s)
                    && old(dev).offsets@[s] != old(self).gem_table@[req.handle]),
            final(self).next_handle == old(self).next_handle,
            final(self).caps == old(self).caps,
    {
        if !dev.check_feature(FEATURE_MODESET) {
            return Err(DrmError::Unsupported);
        }
        if dev.driver_ops.dumb_create.is_none() {
            return Err(DrmError::Unimplemented);
        }
        let key = match self.gem_table.remove(req.handle) {
            Some(k) => k,
            None => {
                proof {
                    assert(self.gem_table@ =~= old(self).gem_table@);
                }
                return Err(DrmError::NotFound);
            },
        };
        if key < dev.buffers.len() as u64 {
            let k = key as usize;
            let _ = dev.buffers[k].release();
        }
        dev.remove_offset(key);
        Ok(())
    }
}


/// What a resource query answers.
#[derive(Debug)]
pub enum ResourcesReply {
    /// A probe: the record with the four counts filled in.
    Counts(DrmModeGetResources),
    /// A fill: the id arrays to copy to the record's addresses.
    Ids { fbs: Vec<u32>, crtcs: Vec<u32>, connectors: Vec<u32>, encoders: Vec<u32> },
}

/// The probe answer of a resource query.
pub open spec fn resources_counts(cfg: DrmModeConfig, req: DrmModeGetResources) -> DrmModeGetResources {
    DrmModeGetResources {
        count_fbs: cfg.framebuffers@.len() as u32,
        count_crtcs: cfg.crtcs@.len() as u32,
        count_connectors: cfg.connectors@.len() as u32,
        count_encoders: cfg.encoders@.len() as u32,
        ..req
    }
}

/// Every array of a resource fill fits the capacity the caller states.
pub open spec fn resources_fit(cfg: DrmModeConfig, req: DrmModeGetResources) -> bool {
    &&& req.count_connectors >= cfg.connectors@.len() as u32
    &&& req.count_crtcs >= cfg.crtcs@.len() as u32
    &&& req.count_encoders >= cfg.encoders@.len() as u32
    &&& req.count_fbs >= cfg.framebuffers@.len() as u32
}

/// The answer a resource query owes on `dev`: refused without mode setting;
/// counts on a probe; on a fill, the id arrays in table order when every
/// capacity is enough, else an invalid argument.
pub open spec fn resources_answer(
    dev: DrmDevice,
    req: DrmModeGetResources,
    r: Result<ResourcesReply, DrmError>,
) -> bool {
    let cfg = dev.mode_config;
    if !modeset(dev) {
        r == Err::<ResourcesReply, DrmError>(DrmError::Unsupported)
    } else if req.fb_id_ptr == 0 && req.crtc_id_ptr == 0 && req.connector_id_ptr == 0
        && req.encoder_id_ptr == 0 {
        match r {
            Ok(ResourcesReply::Counts(c)) => c == resources_counts(cfg, req),
            _ => false,
        }
    } else if !resources_fit(cfg, req) {
        r == Err::<ResourcesReply, DrmError>(DrmError::InvalidArgument)
    } else {
        match r {
            Ok(ResourcesReply::Ids { fbs, crtcs, connectors, encoders }) => {
                &&& fbs@ == framebuffer_ids(cfg.framebuffers@)
                &&& crtcs@ == crtc_ids(cfg.crtcs@)
                &&& connectors@ == connector_ids(cfg.connectors@)
                &&& encoders@ == encoder_ids(cfg.encoders@)
            },
            _ => false,
        }
    }
}

/// What a connector query answers.
#[derive(Debug)]
pub enum ConnectorReply {
    /// A probe: the record with counts and connector details filled in.
    Info(DrmModeGetConnector),
    /// A fill: modes, candidate encoder ids and (property, value) pairs.
    Arrays { modes: Vec<DrmModeModeInfo>, encoders: Vec<u32>, props: Vec<(u32, u64)> },
}

/// What a property query answers.
#[derive(Debug)]
pub enum PropertyReply {
    /// A probe: the record with name, flags and counts filled in.
    Info(DrmModeGetProperty),
    /// A fill: the values and the enum records to copy.
    Arrays { values: Vec<u64>, enums: Vec<PropertyEnum> },
}

/// The values a property of kind `k` reports: a range's bounds, the
/// entries' values, a blob's id, an object reference's type tag.
pub open spec fn kind_values(k: PropertyKind) -> Seq<u64> {
    match k {
        PropertyKind::Range { min, max } => seq![min, max],
        PropertyKind::SignedRange { min, max } => seq![min as u64, max as u64],
        PropertyKind::Enum(e) => e@.map_values(|p: (u64, String)| p.0),
        PropertyKind::Bitmask(e) => e@.map_values(|p: (u64, String)| p.0),
        PropertyKind::Blob(id) => seq![id as u64],
        PropertyKind::Object(t) => seq![object_type_tag(t) as u64],
    }
}

/// The (value, name record) pairs a property of kind `k` reports.
pub open spec fn kind_enums(k: PropertyKind) -> Seq<(u64, Seq<u8>)> {
    match k {
        PropertyKind::Enum(e) => enum_names_view(e@),
        PropertyKind::Bitmask(e) => enum_names_view(e@),
        _ => Seq::empty(),
    }
}

/// Each record carries the value and name record at its position.
pub open spec fn records_match(records: Seq<PropertyEnum>, want: Seq<(u64, Seq<u8>)>) -> bool {
    &&& records.len() == want.len()
    &&& forall|i: int| 0 <= i < records.len() ==> #[trigger] records[i].value == want[i].0 && records[i].name@ == want[i].1
}

/// What a plane list query answers.
#[derive(Debug)]
pub enum PlaneResReply {
    Count(DrmModeGetPlaneRes),
    Ids(Vec<u32>),
}

/// What an object property query answers.
#[derive(Debug)]
pub enum ObjectPropsReply {
    Count(DrmModeObjectGetProps),
    Pairs(Vec<(u32, u64)>),
}

/// `pairs` lists each entry of `m` once.
pub open spec fn lists_entries(pairs: Seq<(u32, u64)>, m: Map<u32, u64>) -> bool {
    &&& pairs.len() == m.dom().len()
    &&& forall|i: int| 0 <= i < pairs.len() ==> #[trigger] m.dom().contains(pairs[i].0) && m[pairs[i].0] == pairs[i].1
    &&& forall|i: int, j: int| 0 <= i < j < pairs.len() ==> pairs[i].0 != pairs[j].0
}

/// The probe answer of a connector query about connector `c`.
pub open spec fn connector_info(c: crate::objects::DrmConnector, req: DrmModeGetConnector) -> DrmModeGetConnector {
    DrmModeGetConnector {
        count_modes: c.modes@.len() as u32,
        count_props: c.properties@.dom().len() as u32,
        count_encoders: c.possible_encoders@.dom().len() as u32,
        connector_type: conn_type_code(c.type_),
        connector_type_id: c.type_id,
        connection: status_code(c.status),
        mm_width: c.display_info.mm_width,
        mm_height: c.display_info.mm_height,
        subpixel: c.display_info.subpixel_order,
        pad: 0,
        ..req
    }
}

/// The answer a connector query owes on `dev`.
pub open spec fn connector_answer(
    dev: DrmDevice,
    req: DrmModeGetConnector,
    r: Result<ConnectorReply, DrmError>,
) -> bool {
    let cfg = dev.mode_config;
    let c = connector_at(cfg.connectors@, req.connector_id);
    if !modeset(dev) {
        r == Err::<ConnectorReply, DrmError>(DrmError::Unsupported)
    } else if !connector_ids(cfg.connectors@).contains(req.connector_id) {
        r == Err::<ConnectorReply, DrmError>(DrmError::NotFound)
    } else if req.encoders_ptr == 0 && req.modes_ptr == 0 && req.props_ptr == 0 && req.prop_values_ptr == 0 {
        match r {
            Ok(ConnectorReply::Info(i)) => i == connector_info(c, req),
            _ => false,
        }
    } else if req.count_modes < c.modes@.len() as u32 || req.count_encoders
        < c.possible_encoders@.dom().len() as u32 || req.count_props < c.properties@.dom().len() as u32 {
        r == Err::<ConnectorReply, DrmError>(DrmError::InvalidArgument)
    } else {
        match r {
            Ok(ConnectorReply::Arrays { modes, encoders, props }) => {
                &&& modes@ == c.modes@
                &&& encoders@.to_set() == c.possible_encoders@.dom()
                &&& encoders@.no_duplicates()
                &&& lists_entries(props@, c.properties@)
            },
            _ => false,
        }
    }
}

/// The answer a property query owes on `dev`.
pub open spec fn property_answer(
    dev: DrmDevice,
    req: DrmModeGetProperty,
    r: Result<PropertyReply, DrmError>,
) -> bool {
    let cfg = dev.mode_config;
    let p = property_at(cfg.properties@, req.prop_id);
    if !modeset(dev) {
        r == Err::<PropertyReply, DrmError>(DrmError::Unsupported)
    } else if !property_ids(cfg.properties@).contains(req.prop_id) {
        r == Err::<PropertyReply, DrmError>(DrmError::NotFound)
    } else if req.values_ptr == 0 && req.enum_blob_ptr == 0 {
        match r {
            Ok(PropertyReply::Info(i)) => {
                &&& i.name@ == p.spec_name()
                &&& i == DrmModeGetProperty {
                    name: i.name,
                    flags: p.spec_flags(),
                    count_values: kind_count_values(p.spec_kind()),
                    count_enum_blobs: kind_count_enum_blobs(p.spec_kind()),
                    ..req
                }
            },
            _ => false,
        }
    } else if req.count_values < kind_count_values(p.spec_kind()) || req.count_enum_blobs
        < kind_count_enum_blobs(p.spec_kind()) {
        r == Err::<PropertyReply, DrmError>(DrmError::InvalidArgument)
    } else {
        match r {
            Ok(PropertyReply::Arrays { values, enums }) => {
                &&& values@ == kind_values(p.spec_kind())
                &&& records_match(enums@, kind_enums(p.spec_kind()))
            },
            _ => false,
        }
    }
}

/// The answer a plane list query owes on `dev`.
pub open spec fn plane_res_answer(
    dev: DrmDevice,
    req: DrmModeGetPlaneRes,
    r: Result<PlaneResReply, DrmError>,
) -> bool {
    let cfg = dev.mode_config;
    if !modeset(dev) {
        r == Err::<PlaneResReply, DrmError>(DrmError::Unsupported)
    } else if req.plane_id_ptr == 0 {
        r == Ok::<PlaneResReply, DrmError>(
            PlaneResReply::Count(DrmModeGetPlaneRes { count_planes: cfg.planes@.len() as u32, ..req }),
        )
    } else if req.count_planes < cfg.planes@.len() as u32 {
        r == Err::<PlaneResReply, DrmError>(DrmError::InvalidArgument)
    } else {
        match r {
            Ok(PlaneResReply::Ids(ids)) => ids@ == plane_ids(cfg.planes@),
            _ => false,
        }
    }
}

/// The property values of the object with id `id` in a registry.
pub open spec fn object_properties(cfg: DrmModeConfig, id: u32) -> Map<u32, u64> {
    let kind = cfg.objects@[id];
    if kind == crate::objects::KIND_PLANE {
        crate::mode_config::plane_at(cfg.planes@, id).properties@
    } else if kind == crate::objects::KIND_CRTC {
        crtc_at(cfg.crtcs@, id).properties@
    } else if kind == crate::objects::KIND_ENCODER {
        encoder_at(cfg.encoders@, id).properties@
    } else if kind == crate::objects::KIND_CONNECTOR {
        connector_at(cfg.connectors@, id).properties@
    } else {
        framebuffer_at(cfg.framebuffers@, id).properties@
    }
}

/// The answer an object property query owes on `dev`.
pub open spec fn object_props_answer(
    dev: DrmDevice,
    req: DrmModeObjectGetProps,
    r: Result<ObjectPropsReply, DrmError>,
) -> bool {
    let cfg = dev.mode_config;
    let props = object_properties(cfg, req.obj_id);
    if !modeset(dev) {
        r == Err::<ObjectPropsReply, DrmError>(DrmError::Unsupported)
    } else if !cfg.objects@.dom().contains(req.obj_id) {
        r == Err::<ObjectPropsReply, DrmError>(DrmError::NotFound)
    } else if req.props_ptr == 0 && req.prop_values_ptr == 0 {
        r == Ok::<ObjectPropsReply, DrmError>(
            ObjectPropsReply::Count(DrmModeObjectGetProps { count_props: props.dom().len() as u32, ..req }),
        )
    } else if req.count_props < props.dom().len() as u32 {
        r == Err::<ObjectPropsReply, DrmError>(DrmError::InvalidArgument)
    } else {
        match r {
            Ok(ObjectPropsReply::Pairs(pairs)) => lists_entries(pairs@, props),
            _ => false,
        }
    }
}

/// The registry object `o` is the one with its id, and its properties are
/// those `object_properties` names.
proof fn lemma_object_ref(cfg: DrmModeConfig, o: DrmModeObjectRef, id: u32)
    requires
        cfg.wf(),
        cfg.objects@.dom().contains(id),
        o.spec_id() == id,
        crate::mode_config::object_in(cfg, o),
    ensures
        o.spec_properties() == object_properties(cfg, id),
{
    match o {
        DrmModeObjectRef::Plane(p) => {
            let k = choose|k: int| 0 <= k < cfg.planes@.len() && cfg.planes@[k] == *p;
            assert(cfg.objects@[id] == crate::objects::KIND_PLANE);
            let c = choose|c: int| 0 <= c < cfg.planes@.len() && cfg.planes@[c].id == id;
            assert(plane_ids(cfg.planes@)[c] == plane_ids(cfg.planes@)[k]);
            crate::mode_config::lemma_unique_pos(plane_ids(cfg.planes@), c, k);
        },
        DrmModeObjectRef::Crtc(p) => {
            let k = choose|k: int| 0 <= k < cfg.crtcs@.len() && cfg.crtcs@[k] == *p;
            assert(cfg.objects@[id] == crate::objects::KIND_CRTC);
            let c = choose|c: int| 0 <= c < cfg.crtcs@.len() && cfg.crtcs@[c].id == id;
            assert(crtc_ids(cfg.crtcs@)[c] == crtc_ids(cfg.crtcs@)[k]);
            crate::mode_config::lemma_unique_pos(crtc_ids(cfg.crtcs@), c, k);
        },
        DrmModeObjectRef::Encoder(p) => {
            let k = choose|k: int| 0 <= k < cfg.encoders@.len() && cfg.encoders@[k] == *p;
            assert(cfg.objects@[id] == crate::objects::KIND_ENCODER);
            let c = choose|c: int| 0 <= c < cfg.encoders@.len() && cfg.encoders@[c].id == id;
            assert(encoder_ids(cfg.encoders@)[c] == encoder_ids(cfg.encoders@)[k]);
            crate::mode_config::lemma_unique_pos(encoder_ids(cfg.encoders@), c, k);
        },
        DrmModeObjectRef::Connector(p) => {
            let k = choose|k: int| 0 <= k < cfg.connectors@.len() && cfg.connectors@[k] == *p;
            assert(cfg.objects@[id] == crate::objects::KIND_CONNECTOR);
            let c = choose|c: int| 0 <= c < cfg.connectors@.len() && cfg.connectors@[c].id == id;
            assert(connector_ids(cfg.connectors@)[c] == connector_ids(cfg.connectors@)[k]);
            crate::mode_config::lemma_unique_pos(connector_ids(cfg.connectors@), c, k);
        },
        DrmModeObjectRef::Framebuffer(p) => {
            let k = choose|k: int| 0 <= k < cfg.framebuffers@.len() && cfg.framebuffers@[k] == *p;
            assert(cfg.objects@[id] == crate::objects::KIND_FRAMEBUFFER);
            let c = choose|c: int| 0 <= c < cfg.framebuffers@.len() && cfg.framebuffers@[c].id == id;
            assert(framebuffer_ids(cfg.framebuffers@)[c] == framebuffer_ids(cfg.framebuffers@)[k]);
            crate::mode_config::lemma_unique_pos(framebuffer_ids(cfg.framebuffers@), c, k);
        },
    }
}

/// The contents of `surface` after the front of `data` was copied over it.
pub open spec fn copied_over(surface: Seq<u8>, data: Seq<u8>) -> Seq<u8> {
    Seq::new(
        surface.len(),
        |i: int| if i < transfer_len(data.len() as int, 0, surface.len() as int) { data[i] } else { surface[i] },
    )
}

/// `b` is `a` after the buffer of framebuffer `fb_id` was copied over the
/// scanout surface, and nothing else changed.
pub open spec fn scanout_copied(a: DrmDevice, b: DrmDevice, fb_id: u32) -> bool {
    &&& same_device_but_scanout(a, b)
    &&& match (a.scanout, b.scanout) {
        (Some(s0), Some(s)) => s@ == copied_over(
            s0@,
            a.buffers@[framebuffer_at(a.mode_config.framebuffers@, fb_id).gem_obj as int].contents(),
        ),
        _ => false,
    }
}

/// Whether a legacy scanout copy of framebuffer `fb_id` can happen on `dev`.
pub open spec fn scanout_ready(dev: DrmDevice, fb_id: u32) -> bool {
    &&& dev.scanout is Some
    &&& framebuffer_ids(dev.mode_config.framebuffers@).contains(fb_id)
    &&& framebuffer_at(dev.mode_config.framebuffers@, fb_id).gem_obj < dev.buffers@.len()
}

/// The values and the (value, name) records of enum or bitmask entries.
fn entry_records(items: &Vec<(u64, String)>) -> (r: (Vec<u64>, Vec<PropertyEnum>))
    ensures
        r.0@ == items@.map_values(|p: (u64, String)| p.0),
        records_match(r.1@, enum_names_view(items@)),
{
    let mut values: Vec<u64> = Vec::new();
    let mut enums: Vec<PropertyEnum> = Vec::new();
    let mut i: usize = 0;
    while i < items.len()
        invariant
            i <= items@.len(),
            values@ == items@.subrange(0, i as int).map_values(|p: (u64, String)| p.0),
            enums@.len() == i,
            forall|j: int| 0 <= j < i ==> #[trigger] enums@[j].value == enum_names_view(items@)[j].0
                && enums@[j].name@ == enum_names_view(items@)[j].1,
        decreases items@.len() - i,
    {
        let v = items[i].0;
        values.push(v);
        let e = PropertyEnum::new(v, items[i].1.as_str());
        enums.push(e);
        i = i + 1;
        proof {
            assert(values@ =~= items@.subrange(0, i as int).map_values(|p: (u64, String)| p.0));
        }
    }
    proof {
        assert(items@.subrange(0, items@.len() as int) =~= items@);
        assert(enums@.len() == items@.len());
        assert(enum_names_view(items@).len() == items@.len());
        assert forall|j: int| 0 <= j < enums@.len() implies #[trigger] enums@[j].value == enum_names_view(items@)[j].0
            && enums@[j].name@ == enum_names_view(items@)[j].1 by {
            assert(j < i);
        }
    }
    (values, enums)
}

/// The values and enum records a property of kind `kind` reports.
fn property_records(kind: &PropertyKind) -> (r: (Vec<u64>, Vec<PropertyEnum>))
    ensures
        r.0@ == kind_values(*kind),
        records_match(r.1@, kind_enums(*kind)),
{
    match kind {
        PropertyKind::Range { min, max } => {
            let values = vec![*min, *max];
            let enums: Vec<PropertyEnum> = Vec::new();
            proof {
                assert(records_match(enums@, kind_enums(*kind)));
            }
            (values, enums)
        },
        PropertyKind::SignedRange { min, max } => {
            let values = vec![#[verifier::truncate] (*min as u64), #[verifier::truncate] (*max as u64)];
            let enums: Vec<PropertyEnum> = Vec::new();
            proof {
                assert(records_match(enums@, kind_enums(*kind)));
            }
            (values, enums)
        },
        PropertyKind::Enum(items) => {
            let r = entry_records(items);
            r
        },
        PropertyKind::Bitmask(items) => {
            let r = entry_records(items);
            r
        },
        PropertyKind::Blob(blob_id) => {
            let values = vec![*blob_id as u64];
            let enums: Vec<PropertyEnum> = Vec::new();
            proof {
                assert(records_match(enums@, kind_enums(*kind)));
            }
            (values, enums)
        },
        PropertyKind::Object(t) => {
            let values = vec![t.tag() as u64];
            let enums: Vec<PropertyEnum> = Vec::new();
            proof {
                assert(records_match(enums@, kind_enums(*kind)));
            }
            (values, enums)
        },
    }
}

impl DrmFile {
    /// Resource ids: counts on a probe; on a fill, the id arrays when each
    /// capacity is enough.
    pub fn get_resources(&self, dev: &DrmDevice, req: DrmModeGetResources) -> (r: Result<ResourcesReply, DrmError>)
        requires
            dev.wf(),
        ensures
            resources_answer(*dev, req, r),
    {
        if !dev.check_feature(FEATURE_MODESET) {
            return Err(DrmError::Unsupported);
        }
        let res = dev.resources();
        let count_crtcs = res.count_crtcs();
        let count_encoders = res.count_encoders();
        let count_connectors = res.count_connectors();
        let count_fbs = res.count_framebuffers();
        if req.is_first_call() {
            let mut out = req;
            out.count_crtcs = count_crtcs;
            out.count_encoders = count_encoders;
            out.count_connectors = count_connectors;
            out.count_fbs = count_fbs;
            return Ok(ResourcesReply::Counts(out));
        }
        if req.count_connectors < count_connectors || req.count_crtcs < count_crtcs
            || req.count_encoders < count_encoders || req.count_fbs < count_fbs {
            return Err(DrmError::InvalidArgument);
        }
        Ok(
            ResourcesReply::Ids {
                fbs: res.framebuffer_id(),
                crtcs: res.crtcs_id(),
                connectors: res.connectors_id(),
                encoders: res.encoders_id(),
            },
        )
    }

    /// CRTC state: gamma size, the framebuffer of its primary plane, and its
    /// position.
    pub fn get_crtc(&self, dev: &DrmDevice, req: DrmModeCrtc) -> (r: Result<DrmModeCrtc, DrmError>)
        requires
            dev.wf(),
        ensures
            !modeset(*dev) ==> r == Err::<DrmModeCrtc, DrmError>(DrmError::Unsupported),
            modeset(*dev) && !crtc_ids(dev.mode_config.crtcs@).contains(req.crtc_id) ==> r == Err::<
                DrmModeCrtc,
                DrmError,
            >(DrmError::NotFound),
            modeset(*dev) && crtc_ids(dev.mode_config.crtcs@).contains(req.crtc_id) ==> r == Ok::<
                DrmModeCrtc,
                DrmError,
            >(
                DrmModeCrtc {
                    gamma_size: crtc_at(dev.mode_config.crtcs@, req.crtc_id).gamma_size,
                    fb_id: plane_fb_id(
                        dev.mode_config,
                        crtc_at(dev.mode_config.crtcs@, req.crtc_id).primary_plane,
                    ),
                    x: crtc_at(dev.mode_config.crtcs@, req.crtc_id).x,
                    y: crtc_at(dev.mode_config.crtcs@, req.crtc_id).y,
                    ..req
                },
            ),
    {
        if !dev.check_feature(FEATURE_MODESET) {
            return Err(DrmError::Unsupported);
        }
        let res = dev.resources();
        let crtc = match res.get_crtc(&req.crtc_id) {
            Some(c) => c,
            None => return Err(DrmError::NotFound),
        };
        let mut out = req;
        out.gamma_size = crtc.gamma_size();
        out.fb_id = crtc.fb_id(res);
        let (x, y) = crtc.xy();
        out.x = x;
        out.y = y;
        Ok(out)
    }

    /// The legacy scanout copy behind SetCrtc and DirtyFB: the contents of
    /// the framebuffer's buffer are copied over the scanout surface.
    fn scanout_copy(&self, dev: &mut DrmDevice, fb_id: u32) -> (r: Result<(), DrmError>)
        requires
            old(dev).wf(),
        ensures
            final(dev).wf(),
            r is Ok <==> scanout_ready(*old(dev), fb_id),
            r matches Err(e) ==> e == DrmError::NotFound && *final(dev) == *old(dev),
            r is Ok ==> scanout_copied(*old(dev), *final(dev), fb_id),
    {
        let taken = dev.scanout.take();
        let mut surface = match taken {
            Some(s) => s,
            None => return Err(DrmError::NotFound),
        };
        let key = match dev.mode_config.lookup_framebuffer(&fb_id) {
            Some(fb) => fb.gem_obj,
            None => {
                dev.scanout = Some(surface);
                return Err(DrmError::NotFound);
            },
        };
        if key >= dev.buffers.len() as u64 {
            dev.scanout = Some(surface);
            return Err(DrmError::NotFound);
        }
        let ghost s0 = surface@;
        let _ = dev.buffers[key as usize].read(0, &mut surface);
        proof {
            assert(surface@ =~= copied_over(s0, dev.buffers@[key as int].contents()));
        }
        dev.scanout = Some(surface);
        Ok(())
    }

    /// Legacy mode set: copies the given framebuffer to the scanout surface.
    pub fn set_crtc(&self, dev: &mut DrmDevice, req: DrmModeCrtc) -> (r: Result<(), DrmError>)
        requires
            old(dev).wf(),
        ensures
            final(dev).wf(),
            !modeset(*old(dev)) ==> r == Err::<(), DrmError>(DrmError::Unsupported) && *final(dev) == *old(dev),
            modeset(*old(dev)) ==> (r is Ok <==> scanout_ready(*old(dev), req.fb_id)),
            r matches Err(e) ==> *final(dev) == *old(dev),
            r is Ok ==> scanout_copied(*old(dev), *final(dev), req.fb_id),
    {
        if !dev.check_feature(FEATURE_MODESET) {
            return Err(DrmError::Unsupported);
        }
        self.scanout_copy(dev, req.fb_id)
    }

    /// Framebuffer flush: copies the framebuffer to the scanout surface.
    pub fn dirty_fb(&self, dev: &mut DrmDevice, req: DrmModeFbDirtyCmd) -> (r: Result<(), DrmError>)
        requires
            old(dev).wf(),
        ensures
            final(dev).wf(),
            !modeset(*old(dev)) ==> r == Err::<(), DrmError>(DrmError::Unsupported) && *final(dev) == *old(dev),
            modeset(*old(dev)) ==> (r is Ok <==> scanout_ready(*old(dev), req.fb_id)),
            r matches Err(e) ==> *final(dev) == *old(dev),
            r is Ok ==> scanout_copied(*old(dev), *final(dev), req.fb_id),
    {
        if !dev.check_feature(FEATURE_MODESET) {
            return Err(DrmError::Unsupported);
        }
        self.scanout_copy(dev, req.fb_id)
    }

    /// Property blobs are not kept: the request is accepted with no effect.
    pub fn get_prop_blob(&self, req: crate::ioctl_defs::DrmModeGetBlob) -> (r: Result<(), DrmError>)
        ensures
            r is Ok,
    {
        Ok(())
    }

    /// Gamma tables are not kept: the request is accepted with no effect.
    pub fn set_gamma(&self, req: crate::ioctl_defs::DrmModeCrtcLut) -> (r: Result<(), DrmError>)
        ensures
            r is Ok,
    {
        Ok(())
    }

    /// Taking or dropping the master role is accepted with no effect.
    pub fn set_master(&self) -> (r: Result<(), DrmError>)
        ensures
            r is Ok,
    {
        Ok(())
    }

    /// Hardware cursors are not supported.
    pub fn cursor(&self, req: DrmModeCursor) -> (r: Result<(), DrmError>)
        ensures
            r == Err::<(), DrmError>(DrmError::NotSupportedHardware),
    {
        Err(DrmError::NotSupportedHardware)
    }

    /// Encoder details.
    pub fn get_encoder(&self, dev: &DrmDevice, req: DrmModeGetEncoder) -> (r: Result<DrmModeGetEncoder, DrmError>)
        requires
            dev.wf(),
        ensures
            !modeset(*dev) ==> r == Err::<DrmModeGetEncoder, DrmError>(DrmError::Unsupported),
            modeset(*dev) && !encoder_ids(dev.mode_config.encoders@).contains(req.encoder_id) ==> r == Err::<
                DrmModeGetEncoder,
                DrmError,
            >(DrmError::NotFound),
            modeset(*dev) && encoder_ids(dev.mode_config.encoders@).contains(req.encoder_id) ==> r == Ok::<
                DrmModeGetEncoder,
                DrmError,
            >(
                DrmModeGetEncoder {
                    encoder_id: req.encoder_id,
                    encoder_type: encoder_type_code(encoder_at(dev.mode_config.encoders@, req.encoder_id).type_),
                    crtc_id: req.crtc_id,
                    possible_crtcs: encoder_at(dev.mode_config.encoders@, req.encoder_id).possible_crtcs,
                    possible_clones: encoder_at(dev.mode_config.encoders@, req.encoder_id).possible_clones,
                },
            ),
    {
        if !dev.check_feature(FEATURE_MODESET) {
            return Err(DrmError::Unsupported);
        }
        let encoder = match dev.resources().get_encoder(&req.encoder_id) {
            Some(e) => e,
            None => return Err(DrmError::NotFound),
        };
        let mut out = req;
        out.encoder_type = encoder.type_().code();
        out.encoder_id = encoder.id();
        out.possible_crtcs = encoder.possible_crtcs();
        out.possible_clones = encoder.possible_clones();
        Ok(out)
    }
    /// Connector details: counts on a probe; on a fill, modes, candidate
    /// encoders and property values when each capacity is enough.
    pub fn get_connector(&self, dev: &DrmDevice, req: DrmModeGetConnector) -> (r: Result<ConnectorReply, DrmError>)
        requires
            dev.wf(),
        ensures
            connector_answer(*dev, req, r),
    {
        if !dev.check_feature(FEATURE_MODESET) {
            return Err(DrmError::Unsupported);
        }
        let conn = match dev.resources().get_connector(&req.connector_id) {
            Some(c) => c,
            None => return Err(DrmError::NotFound),
        };
        let count_modes = conn.count_modes();
        let count_props = conn.count_props();
        let count_encoders = conn.count_encoders();
        if req.is_first_call() {
            let mut out = req;
            out.count_modes = count_modes;
            out.count_props = count_props;
            out.count_encoders = count_encoders;
            out.connector_type = conn.type_().code();
            out.connector_type_id = conn.type_id_();
            out.connection = conn.status().code();
            out.mm_width = conn.mm_width();
            out.mm_height = conn.mm_height();
            out.subpixel = conn.subpixel_order();
            out.pad = 0;
            return Ok(ConnectorReply::Info(out));
        }
        if req.count_modes < count_modes || req.count_encoders < count_encoders || req.count_props < count_props {
            return Err(DrmError::InvalidArgument);
        }
        let modes = conn.modes().clone();
        proof {
            assert(modes@ =~= conn.modes@);
        }
        Ok(
            ConnectorReply::Arrays {
                modes,
                encoders: conn.possible_encoders_id(),
                props: conn.get_properties(),
            },
        )
    }

    /// Property definition: name, flags and counts on a probe; on a fill,
    /// the values and enum records when both capacities are enough.
    pub fn get_property(&self, dev: &DrmDevice, req: DrmModeGetProperty) -> (r: Result<PropertyReply, DrmError>)
        requires
            dev.wf(),
        ensures
            property_answer(*dev, req, r),
    {
        if !dev.check_feature(FEATURE_MODESET) {
            return Err(DrmError::Unsupported);
        }
        let property = match dev.resources().get_properties(&req.prop_id) {
            Some(p) => p,
            None => return Err(DrmError::NotFound),
        };
        let count_values = property.count_values();
        let count_enum_blobs = property.count_enum_blobs();
        if req.is_first_call() {
            let mut out = req;
            out.name = property.name();
            out.flags = property.flags();
            out.count_values = count_values;
            out.count_enum_blobs = count_enum_blobs;
            return Ok(PropertyReply::Info(out));
        }
        if req.count_values < count_values || req.count_enum_blobs < count_enum_blobs {
            return Err(DrmError::InvalidArgument);
        }
        let (values, enums) = property_records(property.kind());
        Ok(PropertyReply::Arrays { values, enums })
    }

    /// Setting a property value is accepted and has no effect.
    pub fn set_property(&self, dev: &DrmDevice) -> (r: Result<(), DrmError>)
        ensures
            r == (if modeset(*dev) { Ok::<(), DrmError>(()) } else { Err(DrmError::Unsupported) }),
    {
        if !dev.check_feature(FEATURE_MODESET) {
            return Err(DrmError::Unsupported);
        }
        Ok(())
    }

    /// Adds a framebuffer over the buffer under a handle of this session.
    pub fn add_fb(&self, dev: &mut DrmDevice, req: DrmModeFBCmd) -> (r: Result<DrmModeFBCmd, DrmError>)
        requires
            old(dev).wf(),
        ensures
            final(dev).wf(),
            !modeset(*old(dev)) ==> r == Err::<DrmModeFBCmd, DrmError>(DrmError::Unsupported),
            modeset(*old(dev)) && !self.gem_table@.dom().contains(req.handle) ==> r == Err::<DrmModeFBCmd, DrmError>(
                DrmError::NotFound,
            ),
            r is Ok <==> modeset(*old(dev)) && self.gem_table@.dom().contains(req.handle)
                && old(dev).mode_config.next_object_id < u32::MAX,
            r is Err ==> *final(dev) == *old(dev),
            r matches Ok(out) ==> out == (DrmModeFBCmd { fb_id: old(dev).mode_config.next_object_id, ..req })
                && same_device_but_registry(*old(dev), *final(dev))
                && crate::mode_config::object_created(
                old(dev).mode_config,
                final(dev).mode_config,
                out.fb_id,
                crate::objects::KIND_FRAMEBUFFER,
            ) && final(dev).mode_config.framebuffers@.last().gem_obj == self.gem_table@[req.handle]
                && final(dev).mode_config.framebuffers@.last().width == req.width
                && final(dev).mode_config.framebuffers@.last().height == req.height
                && final(dev).mode_config.framebuffers@.last().pitch == req.pitch
                && final(dev).mode_config.framebuffers@.last().bpp == req.bpp,
    {
        if !dev.check_feature(FEATURE_MODESET) {
            return Err(DrmError::Unsupported);
        }
        let key = match self.lookup_gem(req.handle) {
            Some(k) => k,
            None => return Err(DrmError::NotFound),
        };
        let fb_id = dev.mode_config.create_framebuffer(req.width, req.height, req.pitch, req.bpp, key)?;
        let mut out = req;
        out.fb_id = fb_id;
        Ok(out)
    }

    /// Removes a framebuffer if there is one under the id; its buffer stays.
    pub fn rm_fb(&self, dev: &mut DrmDevice, req: DrmModeFBCmd) -> (r: Result<(), DrmError>)
        requires
            old(dev).wf(),
        ensures
            final(dev).wf(),
            r == (if modeset(*old(dev)) { Ok::<(), DrmError>(()) } else { Err(DrmError::Unsupported) }),
            !modeset(*old(dev)) ==> *final(dev) == *old(dev),
            modeset(*old(dev)) ==> same_device_but_registry(*old(dev), *final(dev))
                && !framebuffer_ids(final(dev).mode_config.framebuffers@).contains(req.fb_id),
    {
        if !dev.check_feature(FEATURE_MODESET) {
            return Err(DrmError::Unsupported);
        }
        let _ = dev.mode_config.remove_framebuffer(&req.fb_id);
        Ok(())
    }

    /// The plane ids: a count on a probe, the ids on a fill.
    pub fn get_plane_resources(&self, dev: &DrmDevice, req: DrmModeGetPlaneRes) -> (r: Result<PlaneResReply, DrmError>)
        requires
            dev.wf(),
        ensures
            plane_res_answer(*dev, req, r),
    {
        if !dev.check_feature(FEATURE_MODESET) {
            return Err(DrmError::Unsupported);
        }
        let count_planes = dev.resources().count_planes();
        if req.is_first_call() {
            let mut out = req;
            out.count_planes = count_planes;
            return Ok(PlaneResReply::Count(out));
        }
        if req.count_planes < count_planes {
            return Err(DrmError::InvalidArgument);
        }
        Ok(PlaneResReply::Ids(dev.resources().planes_id()))
    }

    /// Plane details; its state and formats are reported as zero.
    pub fn get_plane(&self, dev: &DrmDevice, req: DrmModeGetPlane) -> (r: Result<DrmModeGetPlane, DrmError>)
        requires
            dev.wf(),
        ensures
            r == (if !modeset(*dev) {
                Err(DrmError::Unsupported)
            } else if !plane_ids(dev.mode_config.planes@).contains(req.plane_id) {
                Err(DrmError::NotFound)
            } else {
                Ok(
                    DrmModeGetPlane {
                        crtc_id: 0,
                        fb_id: 0,
                        possible_crtcs: 0,
                        gamma_size: 0,
                        count_format_types: 0,
                        ..req
                    },
                )
            }),
    {
        if !dev.check_feature(FEATURE_MODESET) {
            return Err(DrmError::Unsupported);
        }
        if dev.resources().get_plane(&req.plane_id).is_none() {
            return Err(DrmError::NotFound);
        }
        let mut out = req;
        out.crtc_id = 0;
        out.fb_id = 0;
        out.possible_crtcs = 0;
        out.gamma_size = 0;
        out.count_format_types = 0;
        Ok(out)
    }

    /// The property values of any object: a count on a probe, the (id,
    /// value) pairs on a fill.
    pub fn object_get_props(&self, dev: &DrmDevice, req: DrmModeObjectGetProps) -> (r: Result<ObjectPropsReply, DrmError>)
        requires
            dev.wf(),
        ensures
            object_props_answer(*dev, req, r),
    {
        if !dev.check_feature(FEATURE_MODESET) {
            return Err(DrmError::Unsupported);
        }
        let obj = match dev.resources().get_object(&req.obj_id) {
            Some(o) => o,
            None => return Err(DrmError::NotFound),
        };
        proof {
            lemma_object_ref(dev.mode_config, obj, req.obj_id);
        }
        let count_props = obj.count_props();
        if req.is_first_call() {
            let mut out = req;
            out.count_props = count_props;
            return Ok(ObjectPropsReply::Count(out));
        }
        if req.count_props < count_props {
            return Err(DrmError::InvalidArgument);
        }
        Ok(ObjectPropsReply::Pairs(obj.get_properties()))
    }
}

/// Some framebuffer of the registry shows the buffer with key `key`.
pub open spec fn shown_by_framebuffer(cfg: DrmModeConfig, key: u64) -> bool {
    exists|i: int| 0 <= i < cfg.framebuffers@.len() && #[trigger] cfg.framebuffers@[i].gem_obj == key
}

/// Whether a framebuffer of the registry shows the buffer with key `key`.
fn framebuffer_shows(cfg: &DrmModeConfig, key: u64) -> (r: bool)
    ensures
        r == shown_by_framebuffer(*cfg, key),
{
    let mut i: usize = 0;
    while i < cfg.framebuffers.len()
        invariant
            i <= cfg.framebuffers@.len(),
            forall|j: int| 0 <= j < i ==> cfg.framebuffers@[j].gem_obj != key,
        decreases cfg.framebuffers@.len() - i,
    {
        if cfg.framebuffers[i].gem_obj == key {
            return true;
        }
        i = i + 1;
    }
    false
}

impl DrmFile {
    /// Closes the session: every handle goes, with the mapping offsets of its
    /// buffer; a buffer that no framebuffer shows is released as well. A
    /// buffer that a framebuffer still shows keeps its store.
    pub fn close(&mut self, dev: &mut DrmDevice)
        requires
            old(dev).wf(),
        ensures
            final(dev).wf(),
            final(self).gem_table@.dom().len() == 0,
            final(self).gem_table@.dom().finite(),
            final(dev).mode_config == old(dev).mode_config,
            final(dev).buffers@.len() == old(dev).buffers@.len(),
            final(dev).scanout == old(dev).scanout,
            forall|s: u32| #[trigger] final(dev).offsets@.dom().contains(s) ==> old(dev).offsets@.dom().contains(s)
                && !old(self).gem_table@.values().contains(old(dev).offsets@[s]),
            forall|k: int| 0 <= k < final(dev).buffers@.len() && old(self).gem_table@.values().contains(k as u64)
                && !shown_by_framebuffer(old(dev).mode_config, k as u64)
                ==> #[trigger] final(dev).buffers@[k].contents().len() == 0,
    {
        let handles = self.gem_table.keys();
        let ghost table = self.gem_table@;
        proof {
            crate::id_map::lemma_keys_len(table, handles@);
        }
        let mut i: usize = 0;
        while i < handles.len()
            invariant
                dev.wf(),
                handles@.to_set() == table.dom(),
                handles@.no_duplicates(),
                i <= handles@.len(),
                table == old(self).gem_table@,
                dev.mode_config == old(dev).mode_config,
                dev.buffers@.len() == old(dev).buffers@.len(),
                dev.scanout == old(dev).scanout,
                self.gem_table@.dom().finite(),
                forall|h: u32| #[trigger] self.gem_table@.dom().contains(h) <==> table.dom().contains(h)
                    && !handles@.subrange(0, i as int).contains(h),
                forall|h: u32| #[trigger] self.gem_table@.dom().contains(h) ==> self.gem_table@[h] == table[h],
                forall|s: u32| #[trigger] dev.offsets@.dom().contains(s) ==> old(dev).offsets@.dom().contains(s)
                    && dev.offsets@[s] == old(dev).offsets@[s],
                forall|s: u32, j: int| 0 <= j < i && #[trigger] dev.offsets@.dom().contains(s) ==> dev.offsets@[s]
                    != #[trigger] table[handles@[j]],
                forall|k: int, j: int| 0 <= k < dev.buffers@.len() && 0 <= j < i && #[trigger] table[handles@[j]] == k as u64
                    && !shown_by_framebuffer(old(dev).mode_config, k as u64) ==> #[trigger] dev.buffers@[k].contents().len() == 0,
            decreases handles@.len() - i,
        {
            let h = handles[i];
            proof {
                assert(handles@.to_set().contains(h));
            }
            let key = match self.gem_table.remove(h) {
                Some(k) => k,
                None => {
                    proof {
                        let prev = handles@.subrange(0, i as int);
                        if prev.contains(h) {
                            let j = choose|j: int| 0 <= j < prev.len() && prev[j] == h;
                            assert(handles@[j] == handles@[i as int]);
                        }
                        assert(false);
                    }
                    0
                },
            };
            let ghost before_buffers = dev.buffers@;
            if key < dev.buffers.len() as u64 && !framebuffer_shows(&dev.mode_config, key) {
                let _ = dev.buffers[key as usize].release();
            }
            dev.remove_offset(key);
            proof {
                assert(table[handles@[i as int]] == key);
                let prev = handles@.subrange(0, i as int);
                let next = handles@.subrange(0, i + 1);
                assert forall|h2: u32| #[trigger] self.gem_table@.dom().contains(h2) <==> table.dom().contains(h2)
                    && !next.contains(h2) by {
                    if prev.contains(h2) {
                        let j = choose|j: int| 0 <= j < prev.len() && prev[j] == h2;
                        assert(next[j] == h2);
                    }
                    if next.contains(h2) && h2 != h {
                        let j = choose|j: int| 0 <= j < next.len() && next[j] == h2;
                        assert(j != i);
                        assert(prev[j] == h2);
                    }
                    if h2 == h {
                        assert(next[i as int] == h2);
                    }
                }
            }
            i = i + 1;
        }
        proof {
            assert(handles@.subrange(0, i as int) =~= handles@);
            assert(self.gem_table@.dom() =~= Set::empty()) by {
                assert forall|h: u32| !self.gem_table@.dom().contains(h) by {
                    if table.dom().contains(h) {
                        assert(handles@.to_set().contains(h));
                    }
                }
            }
            assert forall|s: u32| #[trigger] dev.offsets@.dom().contains(s) implies old(dev).offsets@.dom().contains(s)
                && !old(self).gem_table@.values().contains(old(dev).offsets@[s]) by {
                if old(self).gem_table@.values().contains(old(dev).offsets@[s]) {
                    let h = choose|h: u32| table.dom().contains(h) && table[h] == old(dev).offsets@[s];
                    assert(handles@.to_set().contains(h));
                    let j = choose|j: int| 0 <= j < handles@.len() && handles@[j] == h;
                    assert(dev.offsets@[s] != table[handles@[j]]);
                }
            }
            assert forall|k: int| 0 <= k < dev.buffers@.len() && old(self).gem_table@.values().contains(k as u64)
                && !shown_by_framebuffer(old(dev).mode_config, k as u64) implies #[trigger] dev.buffers@[k].contents().len() == 0 by {
                let h = choose|h: u32| table.dom().contains(h) && table[h] == k as u64;
                assert(handles@.to_set().contains(h));
                let j = choose|j: int| 0 <= j < handles@.len() && handles@[j] == h;
                assert(table[handles@[j]] == k as u64);
            }
        }
    }
}

} // verus!
