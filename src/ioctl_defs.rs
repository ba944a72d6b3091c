use vstd::prelude::*;
use crate::error::DrmError;
use crate::mode::DrmModeModeInfo;
use crate::property::DRM_PROP_NAME_LEN;
use crate::features::FEATURE_MODESET;

verus! {

/// Driver identity query. Lengths are in bytes; the three addresses are
/// where the strings go.
#[derive(Debug, Clone, Copy, PartialEq, Eq, Structural)]
pub struct DrmVersion {
    pub version_major: i32,
    pub version_minor: i32,
    pub version_patchlevel: i32,
    pub name_len: u64,
    pub name: u64,
    pub date_len: u64,
    pub date: u64,
    pub desc_len: u64,
    pub desc: u64,
}

impl DrmVersion {
    /// A probe: no string address is given.
    pub fn is_first_call(&self) -> (r: bool)
        ensures
            r == (self.name == 0 && self.date == 0 && self.desc == 0),
    {
        self.name == 0 && self.date == 0 && self.desc == 0
    }
}

/// The device capabilities a client can query.
#[derive(Debug, Clone, Copy, PartialEq, Eq, Structural)]
pub enum DrmCapabilities {
    DumbBuffer,
    VblankHighCrtc,
    DumbPreferredDepth,
    DumbPreferShadow,
    Prime,
    TimestampMonotonic,
    AsyncPageFlip,
    CursorWidth,
    CursorHeight,
    Addfb2Modifiers,
    PageFlipTarget,
    CrtcInVblankEvent,
    SyncObj,
    SyncObjTimeline,
    AtomicAsyncPageFlip,
}

/// The capability with wire number `v`, if any.
pub open spec fn capability_of(v: u64) -> Option<DrmCapabilities> {
    if v == 0x1 { Some(DrmCapabilities::DumbBuffer) }
    else if v == 0x2 { Some(DrmCapabilities::VblankHighCrtc) }
    else if v == 0x3 { Some(DrmCapabilities::DumbPreferredDepth) }
    else if v == 0x4 { Some(DrmCapabilities::DumbPreferShadow) }
    else if v == 0x5 { Some(DrmCapabilities::Prime) }
    else if v == 0x6 { Some(DrmCapabilities::TimestampMonotonic) }
    else if v == 0x7 { Some(DrmCapabilities::AsyncPageFlip) }
    else if v == 0x8 { Some(DrmCapabilities::CursorWidth) }
    else if v == 0x9 { Some(DrmCapabilities::CursorHeight) }
    else if v == 0x10 { Some(DrmCapabilities::Addfb2Modifiers) }
    else if v == 0x11 { Some(DrmCapabilities::PageFlipTarget) }
    else if v == 0x12 { Some(DrmCapabilities::CrtcInVblankEvent) }
    else if v == 0x13 { Some(DrmCapabilities::SyncObj) }
    else if v == 0x14 { Some(DrmCapabilities::SyncObjTimeline) }
    else if v == 0x15 { Some(DrmCapabilities::AtomicAsyncPageFlip) }
    else { None }
}

impl DrmCapabilities {
    /// Decodes a capability number.
    pub fn from_u64(v: u64) -> (r: Option<DrmCapabilities>)
        ensures
            r == capability_of(v),
    {
        if v == 0x1 { Some(DrmCapabilities::DumbBuffer) }
        else if v == 0x2 { Some(DrmCapabilities::VblankHighCrtc) }
        else if v == 0x3 { Some(DrmCapabilities::DumbPreferredDepth) }
        else if v == 0x4 { Some(DrmCapabilities::DumbPreferShadow) }
        else if v == 0x5 { Some(DrmCapabilities::Prime) }
        else if v == 0x6 { Some(DrmCapabilities::TimestampMonotonic) }
        else if v == 0x7 { Some(DrmCapabilities::AsyncPageFlip) }
        else if v == 0x8 { Some(DrmCapabilities::CursorWidth) }
        else if v == 0x9 { Some(DrmCapabilities::CursorHeight) }
        else if v == 0x10 { Some(DrmCapabilities::Addfb2Modifiers) }
        else if v == 0x11 { Some(DrmCapabilities::PageFlipTarget) }
        else if v == 0x12 { Some(DrmCapabilities::CrtcInVblankEvent) }
        else if v == 0x13 { Some(DrmCapabilities::SyncObj) }
        else if v == 0x14 { Some(DrmCapabilities::SyncObjTimeline) }
        else if v == 0x15 { Some(DrmCapabilities::AtomicAsyncPageFlip) }
        else { None }
    }
}

/// Buffer sharing: import supported.
pub const PRIME_IMPORT: u64 = 0x1;
/// Buffer sharing: export supported.
pub const PRIME_EXPORT: u64 = 0x2;

/// Capability query: the capability number in, its value out.
#[derive(Debug, Default, Clone, Copy, PartialEq, Eq, Structural)]
pub struct DrmGetCap {
    pub capability: u64,
    pub value: u64,
}

/// The capabilities a client can declare.
#[derive(Debug, Clone, Copy, PartialEq, Eq, Structural)]
pub enum ClientCaps {
    Stereo3D,
    UniversalPlane,
    Atomic,
    AspectRatio,
    WritebackConnectors,
    CursorPlaneHotspot,
}

/// The client capability with wire number `v`, if any.
pub open spec fn client_cap_of(v: u64) -> Option<ClientCaps> {
    if v == 0x1 { Some(ClientCaps::Stereo3D) }
    else if v == 0x2 { Some(ClientCaps::UniversalPlane) }
    else if v == 0x3 { Some(ClientCaps::Atomic) }
    else if v == 0x4 { Some(ClientCaps::AspectRatio) }
    else if v == 0x5 { Some(ClientCaps::WritebackConnectors) }
    else if v == 0x6 { Some(ClientCaps::CursorPlaneHotspot) }
    else { None }
}

impl ClientCaps {
    /// Decodes a client capability number.
    pub fn from_u64(v: u64) -> (r: Option<ClientCaps>)
        ensures
            r == client_cap_of(v),
    {
        if v == 0x1 { Some(ClientCaps::Stereo3D) }
        else if v == 0x2 { Some(ClientCaps::UniversalPlane) }
        else if v == 0x3 { Some(ClientCaps::Atomic) }
        else if v == 0x4 { Some(ClientCaps::AspectRatio) }
        else if v == 0x5 { Some(ClientCaps::WritebackConnectors) }
        else if v == 0x6 { Some(ClientCaps::CursorPlaneHotspot) }
        else { None }
    }
}

/// A client capability declaration.
#[derive(Debug, Default, Clone, Copy, PartialEq, Eq, Structural)]
pub struct DrmSetClientCap {
    pub capability: u64,
    pub value: u64,
}

/// Resource query: counts in and out, and the addresses of the id arrays.
#[derive(Debug, Default, Clone, Copy, PartialEq, Eq, Structural)]
pub struct DrmModeGetResources {
    pub fb_id_ptr: u64,
    pub crtc_id_ptr: u64,
    pub connector_id_ptr: u64,
    pub encoder_id_ptr: u64,
    pub count_fbs: u32,
    pub count_crtcs: u32,
    pub count_connectors: u32,
    pub count_encoders: u32,
    pub min_width: u32,
    pub max_width: u32,
    pub min_height: u32,
    pub max_height: u32,
}

impl DrmModeGetResources {
    /// A probe: no array address is given.
    pub fn is_first_call(&self) -> (r: bool)
        ensures
            r == (self.fb_id_ptr == 0 && self.crtc_id_ptr == 0 && self.connector_id_ptr == 0
                && self.encoder_id_ptr == 0),
    {
        self.fb_id_ptr == 0 && self.crtc_id_ptr == 0 && self.connector_id_ptr == 0
            && self.encoder_id_ptr == 0
    }
}

/// CRTC query and legacy configuration.
#[derive(Debug, Default, Clone, Copy, PartialEq, Eq)]
pub struct DrmModeCrtc {
    pub set_connectors_ptr: u64,
    pub count_connectors: u32,
    pub crtc_id: u32,
    pub fb_id: u32,
    pub x: u32,
    pub y: u32,
    pub gamma_size: u32,
    pub mode_valid: u32,
    pub mode: DrmModeModeInfo,
}

/// Cursor operation flags.
#[derive(Debug, Clone, Copy, PartialEq, Eq, Structural)]
pub enum DrmModeCursorFlags {
    Bo,
    Move,
    Flags,
}

/// Hardware cursor request.
#[derive(Debug, Default, Clone, Copy, PartialEq, Eq, Structural)]
pub struct DrmModeCursor {
    pub flags: u32,
    pub crtc_id: u32,
    pub x: i32,
    pub y: i32,
    pub width: u32,
    pub height: u32,
    pub handle: u32,
    pub hot_x: i32,
    pub hot_y: i32,
}

/// Gamma table request.
#[derive(Debug, Default, Clone, Copy, PartialEq, Eq, Structural)]
pub struct DrmModeCrtcLut {
    pub crtc_id: u32,
    pub gamma_size: u32,
    pub red: u64,
    pub green: u64,
    pub blue: u64,
}

/// Encoder query.
#[derive(Debug, Default, Clone, Copy, PartialEq, Eq, Structural)]
pub struct DrmModeGetEncoder {
    pub encoder_id: u32,
    pub encoder_type: u32,
    pub crtc_id: u32,
    pub possible_crtcs: u32,
    pub possible_clones: u32,
}

/// Connector query: modes, candidate encoders and property values.
#[derive(Debug, Default, Clone, Copy, PartialEq, Eq, Structural)]
pub struct DrmModeGetConnector {
    pub encoders_ptr: u64,
    pub modes_ptr: u64,
    pub props_ptr: u64,
    pub prop_values_ptr: u64,
    pub count_modes: u32,
    pub count_props: u32,
    pub count_encoders: u32,
    pub encoder_id: u32,
    pub connector_id: u32,
    pub connector_type: u32,
    pub connector_type_id: u32,
    pub connection: u32,
    pub mm_width: u32,
    pub mm_height: u32,
    pub subpixel: u32,
    pub pad: u32,
}

impl DrmModeGetConnector {
    /// A probe: no array address is given.
    pub fn is_first_call(&self) -> (r: bool)
        ensures
            r == (self.encoders_ptr == 0 && self.modes_ptr == 0 && self.props_ptr == 0
                && self.prop_values_ptr == 0),
    {
        self.encoders_ptr == 0 && self.modes_ptr == 0 && self.props_ptr == 0
            && self.prop_values_ptr == 0
    }
}

/// Property definition query: values and enum entries.
#[derive(Debug, Default, Clone, Copy, PartialEq, Eq)]
pub struct DrmModeGetProperty {
    pub values_ptr: u64,
    pub enum_blob_ptr: u64,
    pub prop_id: u32,
    pub flags: u32,
    pub name: [u8; DRM_PROP_NAME_LEN],
    pub count_values: u32,
    pub count_enum_blobs: u32,
}

impl DrmModeGetProperty {
    /// A probe: no array address is given.
    pub fn is_first_call(&self) -> (r: bool)
        ensures
            r == (self.values_ptr == 0 && self.enum_blob_ptr == 0),
    {
        self.values_ptr == 0 && self.enum_blob_ptr == 0
    }
}

/// Property value change request.
#[derive(Debug, Default, Clone, Copy, PartialEq, Eq, Structural)]
pub struct DrmModeConnectorSetProperty {
    pub value: u64,
    pub prop_id: u32,
    pub connector_id: u32,
}

/// Property blob query.
#[derive(Debug, Default, Clone, Copy, PartialEq, Eq, Structural)]
pub struct DrmModeGetBlob {
    pub blob_id: u32,
    pub length: u32,
    pub data: u64,
}

/// Framebuffer creation and removal.
#[derive(Debug, Default, Clone, Copy, PartialEq, Eq, Structural)]
pub struct DrmModeFBCmd {
    pub fb_id: u32,
    pub width: u32,
    pub height: u32,
    pub pitch: u32,
    pub bpp: u32,
    pub depth: u32,
    pub handle: u32,
}

/// Framebuffer flush request.
#[derive(Debug, Default, Clone, Copy, PartialEq, Eq, Structural)]
pub struct DrmModeFbDirtyCmd {
    pub fb_id: u32,
    pub flags: u32,
    pub color: u32,
    pub num_clips: u32,
    pub clips_ptr: u64,
}

/// Dumb buffer creation: size in, handle, pitch and size out.
#[derive(Debug, Default, Clone, Copy, PartialEq, Eq, Structural)]
pub struct DrmModeCreateDumb {
    pub height: u32,
    pub width: u32,
    pub bpp: u32,
    pub flags: u32,
    pub handle: u32,
    pub pitch: u32,
    pub size: u64,
}

/// Dumb buffer mapping: handle in, mapping offset out.
#[derive(Debug, Default, Clone, Copy, PartialEq, Eq, Structural)]
pub struct DrmModeMapDumb {
    pub handle: u32,
    pub pad: u32,
    pub offset: u64,
}

/// Dumb buffer destruction.
#[derive(Debug, Default, Clone, Copy, PartialEq, Eq, Structural)]
pub struct DrmModeDestroyDumb {
    pub handle: u32,
}

/// Plane list query.
#[derive(Debug, Default, Clone, Copy, PartialEq, Eq, Structural)]
pub struct DrmModeGetPlaneRes {
    pub plane_id_ptr: u64,
    pub count_planes: u32,
}

impl DrmModeGetPlaneRes {
    /// A probe: no array address is given.
    pub fn is_first_call(&self) -> (r: bool)
        ensures
            r == (self.plane_id_ptr == 0),
    {
        self.plane_id_ptr == 0
    }
}

/// Plane query.
#[derive(Debug, Default, Clone, Copy, PartialEq, Eq, Structural)]
pub struct DrmModeGetPlane {
    pub plane_id: u32,
    pub crtc_id: u32,
    pub fb_id: u32,
    pub possible_crtcs: u32,
    pub gamma_size: u32,
    pub count_format_types: u32,
    pub format_type_ptr: u64,
}

/// Object property query: ids and values.
#[derive(Debug, Default, Clone, Copy, PartialEq, Eq, Structural)]
pub struct DrmModeObjectGetProps {
    pub props_ptr: u64,
    pub prop_values_ptr: u64,
    pub count_props: u32,
    pub obj_id: u32,
    pub obj_type: u32,
}

impl DrmModeObjectGetProps {
    /// A probe: no array address is given.
    pub fn is_first_call(&self) -> (r: bool)
        ensures
            r == (self.props_ptr == 0 && self.prop_values_ptr == 0),
    {
        self.props_ptr == 0 && self.prop_values_ptr == 0
    }
}

/// The control operations, by name.
#[derive(Debug, Clone, Copy, PartialEq, Eq, Structural)]
pub enum DrmCommand {
    Version,
    GetCap,
    SetClientCap,
    SetMaster,
    DropMaster,
    GetResources,
    GetCrtc,
    SetCrtc,
    Cursor,
    SetGamma,
    GetEncoder,
    GetConnector,
    GetProperty,
    SetProperty,
    GetPropBlob,
    AddFB,
    RmFB,
    DirtyFB,
    CreateDumb,
    MapDumb,
    DestroyDumb,
    GetPlaneResources,
    GetPlane,
    ObjectGetProperties,
    Cursor2,
}

/// The operation with command number `nr`, if any.
pub open spec fn command_of(nr: u8) -> Option<DrmCommand> {
    if nr == 0x00 { Some(DrmCommand::Version) }
    else if nr == 0x0c { Some(DrmCommand::GetCap) }
    else if nr == 0x0d { Some(DrmCommand::SetClientCap) }
    else if nr == 0x1e { Some(DrmCommand::SetMaster) }
    else if nr == 0x1f { Some(DrmCommand::DropMaster) }
    else if nr == 0xa0 { Some(DrmCommand::GetResources) }
    else if nr == 0xa1 { Some(DrmCommand::GetCrtc) }
    else if nr == 0xa2 { Some(DrmCommand::SetCrtc) }
    else if nr == 0xa3 { Some(DrmCommand::Cursor) }
    else if nr == 0xa5 { Some(DrmCommand::SetGamma) }
    else if nr == 0xa6 { Some(DrmCommand::GetEncoder) }
    else if nr == 0xa7 { Some(DrmCommand::GetConnector) }
    else if nr == 0xaa { Some(DrmCommand::GetProperty) }
    else if nr == 0xab { Some(DrmCommand::SetProperty) }
    else if nr == 0xac { Some(DrmCommand::GetPropBlob) }
    else if nr == 0xae { Some(DrmCommand::AddFB) }
    else if nr == 0xaf { Some(DrmCommand::RmFB) }
    else if nr == 0xb1 { Some(DrmCommand::DirtyFB) }
    else if nr == 0xb2 { Some(DrmCommand::CreateDumb) }
    else if nr == 0xb3 { Some(DrmCommand::MapDumb) }
    else if nr == 0xb4 { Some(DrmCommand::DestroyDumb) }
    else if nr == 0xb5 { Some(DrmCommand::GetPlaneResources) }
    else if nr == 0xb6 { Some(DrmCommand::GetPlane) }
    else if nr == 0xb9 { Some(DrmCommand::ObjectGetProperties) }
    else if nr == 0xbb { Some(DrmCommand::Cursor2) }
    else { None }
}

/// The device feature each operation needs: mode setting for the
/// mode-setting operations, none for the others.
pub open spec fn command_feature(c: DrmCommand) -> u32 {
    match c {
        DrmCommand::Version => 0,
        DrmCommand::GetCap => 0,
        DrmCommand::SetClientCap => 0,
        DrmCommand::SetMaster => 0,
        DrmCommand::DropMaster => 0,
        DrmCommand::GetResources => FEATURE_MODESET,
        DrmCommand::GetCrtc => FEATURE_MODESET,
        DrmCommand::SetCrtc => FEATURE_MODESET,
        DrmCommand::Cursor => 0,
        DrmCommand::SetGamma => 0,
        DrmCommand::GetEncoder => FEATURE_MODESET,
        DrmCommand::GetConnector => FEATURE_MODESET,
        DrmCommand::GetProperty => FEATURE_MODESET,
        DrmCommand::SetProperty => FEATURE_MODESET,
        DrmCommand::GetPropBlob => 0,
        DrmCommand::AddFB => FEATURE_MODESET,
        DrmCommand::RmFB => FEATURE_MODESET,
        DrmCommand::DirtyFB => FEATURE_MODESET,
        DrmCommand::CreateDumb => FEATURE_MODESET,
        DrmCommand::MapDumb => FEATURE_MODESET,
        DrmCommand::DestroyDumb => FEATURE_MODESET,
        DrmCommand::GetPlaneResources => FEATURE_MODESET,
        DrmCommand::GetPlane => FEATURE_MODESET,
        DrmCommand::ObjectGetProperties => FEATURE_MODESET,
        DrmCommand::Cursor2 => 0,
    }
}

impl DrmCommand {
    /// Decodes a command number; an unknown number is reported as such.
    pub fn decode(nr: u8) -> (r: Result<DrmCommand, DrmError>)
        ensures
            r == (match command_of(nr) {
                Some(c) => Ok(c),
                None => Err(DrmError::UnknownCommand),
            }),
    {
        if nr == 0x00 { Ok(DrmCommand::Version) }
        else if nr == 0x0c { Ok(DrmCommand::GetCap) }
        else if nr == 0x0d { Ok(DrmCommand::SetClientCap) }
        else if nr == 0x1e { Ok(DrmCommand::SetMaster) }
        else if nr == 0x1f { Ok(DrmCommand::DropMaster) }
        else if nr == 0xa0 { Ok(DrmCommand::GetResources) }
        else if nr == 0xa1 { Ok(DrmCommand::GetCrtc) }
        else if nr == 0xa2 { Ok(DrmCommand::SetCrtc) }
        else if nr == 0xa3 { Ok(DrmCommand::Cursor) }
        else if nr == 0xa5 { Ok(DrmCommand::SetGamma) }
        else if nr == 0xa6 { Ok(DrmCommand::GetEncoder) }
        else if nr == 0xa7 { Ok(DrmCommand::GetConnector) }
        else if nr == 0xaa { Ok(DrmCommand::GetProperty) }
        else if nr == 0xab { Ok(DrmCommand::SetProperty) }
        else if nr == 0xac { Ok(DrmCommand::GetPropBlob) }
        else if nr == 0xae { Ok(DrmCommand::AddFB) }
        else if nr == 0xaf { Ok(DrmCommand::RmFB) }
        else if nr == 0xb1 { Ok(DrmCommand::DirtyFB) }
        else if nr == 0xb2 { Ok(DrmCommand::CreateDumb) }
        else if nr == 0xb3 { Ok(DrmCommand::MapDumb) }
        else if nr == 0xb4 { Ok(DrmCommand::DestroyDumb) }
        else if nr == 0xb5 { Ok(DrmCommand::GetPlaneResources) }
        else if nr == 0xb6 { Ok(DrmCommand::GetPlane) }
        else if nr == 0xb9 { Ok(DrmCommand::ObjectGetProperties) }
        else if nr == 0xbb { Ok(DrmCommand::Cursor2) }
        else { Err(DrmError::UnknownCommand) }
    }

    /// The device feature the operation needs, 0 for none.
    pub fn required_feature(&self) -> (r: u32)
        ensures
            r == command_feature(*self),
    {
        match self {
            DrmCommand::Version => 0,
            DrmCommand::GetCap => 0,
            DrmCommand::SetClientCap => 0,
            DrmCommand::SetMaster => 0,
            DrmCommand::DropMaster => 0,
            DrmCommand::GetResources => FEATURE_MODESET,
            DrmCommand::GetCrtc => FEATURE_MODESET,
            DrmCommand::SetCrtc => FEATURE_MODESET,
            DrmCommand::Cursor => 0,
            DrmCommand::SetGamma => 0,
            DrmCommand::GetEncoder => FEATURE_MODESET,
            DrmCommand::GetConnector => FEATURE_MODESET,
            DrmCommand::GetProperty => FEATURE_MODESET,
            DrmCommand::SetProperty => FEATURE_MODESET,
            DrmCommand::GetPropBlob => 0,
            DrmCommand::AddFB => FEATURE_MODESET,
            DrmCommand::RmFB => FEATURE_MODESET,
            DrmCommand::DirtyFB => FEATURE_MODESET,
            DrmCommand::CreateDumb => FEATURE_MODESET,
            DrmCommand::MapDumb => FEATURE_MODESET,
            DrmCommand::DestroyDumb => FEATURE_MODESET,
            DrmCommand::GetPlaneResources => FEATURE_MODESET,
            DrmCommand::GetPlane => FEATURE_MODESET,
            DrmCommand::ObjectGetProperties => FEATURE_MODESET,
            DrmCommand::Cursor2 => 0,
        }
    }
}

/// Where element `i` of an array of `size`-byte elements at `base` lies,
/// when that address fits in 64 bits.
pub fn element_addr(base: u64, i: u64, size: u64) -> (r: Option<u64>)
    ensures
        r == (if base + i * size <= u64::MAX { Some((base + i * size) as u64) } else { None::<u64> }),
{
    match i.checked_mul(size) {
        Some(off) => base.checked_add(off),
        None => {
            proof {
                assert(i * size > u64::MAX);
                assert(base + i * size > u64::MAX) by (nonlinear_arith)
                    requires i * size > u64::MAX, base >= 0;
            }
            None
        },
    }
}

} // verus!
