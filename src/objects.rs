use vstd::prelude::*;
use crate::id_map::IdMap;
use crate::mode::DrmModeModeInfo;

verus! {

/// Kind tag of a plane in the registry's object table.
pub const KIND_PLANE: u64 = 1;
/// Kind tag of a CRTC.
pub const KIND_CRTC: u64 = 2;
/// Kind tag of an encoder.
pub const KIND_ENCODER: u64 = 3;
/// Kind tag of a connector.
pub const KIND_CONNECTOR: u64 = 4;
/// Kind tag of a framebuffer.
pub const KIND_FRAMEBUFFER: u64 = 5;

/// The role of a plane.
#[derive(Debug, Clone, Copy, PartialEq, Eq, Structural)]
pub enum PlaneType {
    Overlay,
    Primary,
    Cursor,
}

/// A compositing layer that can show a framebuffer.
#[derive(Debug)]
pub struct DrmPlane {
    pub id: u32,
    pub type_: PlaneType,
    /// The attached framebuffer, 0 for none.
    pub fb_id: u32,
    pub properties: IdMap,
}

impl DrmPlane {
    pub fn id(&self) -> (r: u32)
        ensures
            r == self.id,
    {
        self.id
    }

    pub fn type_(&self) -> (r: PlaneType)
        ensures
            r == self.type_,
    {
        self.type_
    }

    pub fn fb_id(&self) -> (r: u32)
        ensures
            r == self.fb_id,
    {
        self.fb_id
    }
}

/// A scanout controller, reading a framebuffer through its primary plane.
#[derive(Debug)]
pub struct DrmCrtc {
    pub id: u32,
    /// Human-readable name.
    pub name: String,
    /// Dense slot number, the CRTC's bit in possibility masks.
    pub index: u8,
    pub properties: IdMap,
    pub gamma_size: u32,
    /// Id of the primary plane.
    pub primary_plane: u32,
    /// Id of the cursor plane, if any.
    pub cursor_plane: Option<u32>,
    pub enabled: bool,
    pub x: u32,
    pub y: u32,
}

impl DrmCrtc {
    pub fn id(&self) -> (r: u32)
        ensures
            r == self.id,
    {
        self.id
    }

    pub fn index(&self) -> (r: u8)
        ensures
            r == self.index,
    {
        self.index
    }

    pub fn xy(&self) -> (r: (u32, u32))
        ensures
            r == (self.x, self.y),
    {
        (self.x, self.y)
    }

    pub fn gamma_size(&self) -> (r: u32)
        ensures
            r == self.gamma_size,
    {
        self.gamma_size
    }
}

/// The type of an encoder.
#[derive(Debug, Clone, Copy, PartialEq, Eq, Structural)]
pub enum EncoderType {
    NoType,
    DAC,
    TMDS,
    LVDS,
    TVDAC,
    VIRTUAL,
    DSI,
    DPMST,
    DPI,
}

/// The number of each encoder type on the wire.
pub open spec fn encoder_type_code(t: EncoderType) -> u32 {
    match t {
        EncoderType::NoType => 0,
        EncoderType::DAC => 1,
        EncoderType::TMDS => 2,
        EncoderType::LVDS => 3,
        EncoderType::TVDAC => 4,
        EncoderType::VIRTUAL => 5,
        EncoderType::DSI => 6,
        EncoderType::DPMST => 7,
        EncoderType::DPI => 8,
    }
}

impl EncoderType {
    pub fn code(&self) -> (r: u32)
        ensures
            r == encoder_type_code(*self),
    {
        match self {
            EncoderType::NoType => 0,
            EncoderType::DAC => 1,
            EncoderType::TMDS => 2,
            EncoderType::LVDS => 3,
            EncoderType::TVDAC => 4,
            EncoderType::VIRTUAL => 5,
            EncoderType::DSI => 6,
            EncoderType::DPMST => 7,
            EncoderType::DPI => 8,
        }
    }
}

/// A signal conversion stage between CRTCs and connectors.
#[derive(Debug)]
pub struct DrmEncoder {
    pub id: u32,
    pub type_: EncoderType,
    /// Dense slot number, the encoder's bit in possibility masks.
    pub index: u8,
    pub crtc: Option<u32>,
    pub properties: IdMap,
    /// Bit `i` is set when the CRTC of index `i` can drive this encoder.
    pub possible_crtcs: u32,
    /// Encoders that can be cloned with this one; never populated.
    pub possible_clones: u32,
}

impl DrmEncoder {
    pub fn id(&self) -> (r: u32)
        ensures
            r == self.id,
    {
        self.id
    }

    pub fn index(&self) -> (r: u8)
        ensures
            r == self.index,
    {
        self.index
    }

    pub fn type_(&self) -> (r: EncoderType)
        ensures
            r == self.type_,
    {
        self.type_
    }

    pub fn possible_crtcs(&self) -> (r: u32)
        ensures
            r == self.possible_crtcs,
    {
        self.possible_crtcs
    }

    pub fn possible_clones(&self) -> (r: u32)
        ensures
            r == self.possible_clones,
    {
        self.possible_clones
    }
}

/// The kind of physical or logical output port.
#[derive(Debug, Clone, Copy, PartialEq, Eq, Structural)]
pub enum DrmModeConnType {
    Unknown,
    VGA,
    DVII,
    DVID,
    DVIA,
    Composite,
    SVIDEO,
    LVDS,
    Component,
    NinePinDIN,
    DisplayPort,
    HDMIA,
    HDMIB,
    TV,
    EDP,
    VIRTUAL,
    DSI,
    DPI,
    WRITEBACK,
    SPI,
    USB,
}

/// The number of each connector type on the wire.
pub open spec fn conn_type_code(t: DrmModeConnType) -> u32 {
    match t {
        DrmModeConnType::Unknown => 0,
        DrmModeConnType::VGA => 1,
        DrmModeConnType::DVII => 2,
        DrmModeConnType::DVID => 3,
        DrmModeConnType::DVIA => 4,
        DrmModeConnType::Composite => 5,
        DrmModeConnType::SVIDEO => 6,
        DrmModeConnType::LVDS => 7,
        DrmModeConnType::Component => 8,
        DrmModeConnType::NinePinDIN => 9,
        DrmModeConnType::DisplayPort => 10,
        DrmModeConnType::HDMIA => 11,
        DrmModeConnType::HDMIB => 12,
        DrmModeConnType::TV => 13,
        DrmModeConnType::EDP => 14,
        DrmModeConnType::VIRTUAL => 15,
        DrmModeConnType::DSI => 16,
        DrmModeConnType::DPI => 17,
        DrmModeConnType::WRITEBACK => 18,
        DrmModeConnType::SPI => 19,
        DrmModeConnType::USB => 20,
    }
}

impl DrmModeConnType {
    pub fn code(&self) -> (r: u32)
        ensures
            r == conn_type_code(*self),
    {
        match self {
            DrmModeConnType::Unknown => 0,
            DrmModeConnType::VGA => 1,
            DrmModeConnType::DVII => 2,
            DrmModeConnType::DVID => 3,
            DrmModeConnType::DVIA => 4,
            DrmModeConnType::Composite => 5,
            DrmModeConnType::SVIDEO => 6,
            DrmModeConnType::LVDS => 7,
            DrmModeConnType::Component => 8,
            DrmModeConnType::NinePinDIN => 9,
            DrmModeConnType::DisplayPort => 10,
            DrmModeConnType::HDMIA => 11,
            DrmModeConnType::HDMIB => 12,
            DrmModeConnType::TV => 13,
            DrmModeConnType::EDP => 14,
            DrmModeConnType::VIRTUAL => 15,
            DrmModeConnType::DSI => 16,
            DrmModeConnType::DPI => 17,
            DrmModeConnType::WRITEBACK => 18,
            DrmModeConnType::SPI => 19,
            DrmModeConnType::USB => 20,
        }
    }
}

/// Whether a display is attached to a connector.
#[derive(Debug, Clone, Copy, PartialEq, Eq, Structural)]
pub enum ConnectorStatus {
    Connected,
    Disconnected,
    Unknownconnection,
}

/// The number of each connection status on the wire.
pub open spec fn status_code(s: ConnectorStatus) -> u32 {
    match s {
        ConnectorStatus::Connected => 1,
        ConnectorStatus::Disconnected => 2,
        ConnectorStatus::Unknownconnection => 3,
    }
}

impl ConnectorStatus {
    pub fn code(&self) -> (r: u32)
        ensures
            r == status_code(*self),
    {
        match self {
            ConnectorStatus::Connected => 1,
            ConnectorStatus::Disconnected => 2,
            ConnectorStatus::Unknownconnection => 3,
        }
    }
}

/// Subpixel layout bit: RGB 4:4:4.
pub const SUBPIXEL_RGB444: u32 = 0x1;
/// Subpixel layout bit: YCbCr 4:4:4.
pub const SUBPIXEL_YCBCR444: u32 = 0x2;
/// Subpixel layout bit: YCbCr 4:2:2.
pub const SUBPIXEL_YCBCR422: u32 = 0x4;
/// Subpixel layout bit: YCbCr 4:2:0.
pub const SUBPIXEL_YCBCR420: u32 = 0x8;

/// Physical size and subpixel layout of the attached display.
#[derive(Debug, Clone, Copy, PartialEq, Eq, Structural)]
pub struct DrmDisplayInfo {
    pub mm_width: u32,
    pub mm_height: u32,
    pub subpixel_order: u32,
}

impl DrmDisplayInfo {
    pub fn mm_width(&self) -> (r: u32)
        ensures
            r == self.mm_width,
    {
        self.mm_width
    }

    pub fn mm_height(&self) -> (r: u32)
        ensures
            r == self.mm_height,
    {
        self.mm_height
    }

    pub fn subpixel_order(&self) -> (r: u32)
        ensures
            r == self.subpixel_order,
    {
        self.subpixel_order
    }
}

/// A display output port.
#[derive(Debug)]
pub struct DrmConnector {
    pub id: u32,
    pub encoder: Option<u32>,
    /// Supported modes, each at most once.
    pub modes: Vec<DrmModeModeInfo>,
    pub properties: IdMap,
    /// Candidate encoders: encoder id to encoder index.
    pub possible_encoders: IdMap,
    /// Bit `i` is set when the encoder of index `i` is a candidate.
    pub possible_encoders_mask: u32,
    pub type_: DrmModeConnType,
    pub type_id: u32,
    pub status: ConnectorStatus,
    pub display_info: DrmDisplayInfo,
}

impl DrmConnector {
    pub fn id(&self) -> (r: u32)
        ensures
            r == self.id,
    {
        self.id
    }

    pub fn attach_property(&mut self, property_id: u32, value: u64)
        ensures
            final(self).properties@ == old(self).properties@.insert(property_id, value),
            final(self).id == old(self).id,
            final(self).modes@ == old(self).modes@,
            final(self).possible_encoders@ == old(self).possible_encoders@,
    {
        self.properties.insert(property_id, value);
    }

    pub fn type_(&self) -> (r: DrmModeConnType)
        ensures
            r == self.type_,
    {
        self.type_
    }

    pub fn type_id_(&self) -> (r: u32)
        ensures
            r == self.type_id,
    {
        self.type_id
    }

    pub fn status(&self) -> (r: ConnectorStatus)
        ensures
            r == self.status,
    {
        self.status
    }

    pub fn mm_width(&self) -> (r: u32)
        ensures
            r == self.display_info.mm_width,
    {
        self.display_info.mm_width()
    }

    pub fn mm_height(&self) -> (r: u32)
        ensures
            r == self.display_info.mm_height,
    {
        self.display_info.mm_height()
    }

    pub fn subpixel_order(&self) -> (r: u32)
        ensures
            r == self.display_info.subpixel_order,
    {
        self.display_info.subpixel_order()
    }

    pub fn encoder(&self) -> (r: Option<u32>)
        ensures
            r == self.encoder,
    {
        self.encoder
    }

    pub fn modes(&self) -> (r: &Vec<DrmModeModeInfo>)
        ensures
            r@ == self.modes@,
    {
        &self.modes
    }

    pub fn possible_encoders_id(&self) -> (r: Vec<u32>)
        ensures
            r@.to_set() == self.possible_encoders@.dom(),
            r@.no_duplicates(),
    {
        self.possible_encoders.keys()
    }

    pub fn count_modes(&self) -> (r: u32)
        ensures
            r == self.modes@.len() as u32,
    {
        self.modes.len() as u32
    }

    pub fn count_encoders(&self) -> (r: u32)
        ensures
            r == self.possible_encoders@.dom().len() as u32,
    {
        let keys = self.possible_encoders.keys();
        proof {
            crate::id_map::lemma_keys_len(self.possible_encoders@, keys@);
        }
        keys.len() as u32
    }
}

/// A 2D pixel surface over a buffer object.
#[derive(Debug)]
pub struct DrmFramebuffer {
    pub id: u32,
    pub width: u32,
    pub height: u32,
    pub pitch: u32,
    pub bpp: u32,
    /// The device key of the buffer object it shows; the buffer is shared,
    /// not copied.
    pub gem_obj: u64,
    pub properties: IdMap,
}

impl DrmFramebuffer {
    /// A framebuffer not yet registered: its id is 0 until `init_object`.
    pub fn new(width: u32, height: u32, pitch: u32, bpp: u32, gem_obj: u64) -> (r: DrmFramebuffer)
        ensures
            r.id == 0,
            r.width == width,
            r.height == height,
            r.pitch == pitch,
            r.bpp == bpp,
            r.gem_obj == gem_obj,
            r.properties@.dom().len() == 0,
    {
        DrmFramebuffer { id: 0, width, height, pitch, bpp, gem_obj, properties: IdMap::new() }
    }

    /// Gives the framebuffer its object id.
    pub fn init_object(&mut self, id: u32)
        ensures
            final(self).id == id,
            final(self).width == old(self).width,
            final(self).height == old(self).height,
            final(self).pitch == old(self).pitch,
            final(self).bpp == old(self).bpp,
            final(self).gem_obj == old(self).gem_obj,
            final(self).properties == old(self).properties,
    {
        self.id = id;
    }
}

/// How a driver builds framebuffers over buffer objects.
pub trait ModeConfigFuncs {
    fn create_framebuffer(
        &self,
        width: u32,
        height: u32,
        pitch: u32,
        bpp: u32,
        gem_obj: u64,
    ) -> Result<DrmFramebuffer, crate::error::DrmError>;
}

/// The capability shared by every mode-setting object: an id and its
/// property values.
pub trait DrmModeObject {
    spec fn spec_id(&self) -> u32;

    spec fn spec_properties(&self) -> Map<u32, u64>;

    fn id(&self) -> (r: u32)
        ensures
            r == self.spec_id(),
    ;

    fn properties(&self) -> (r: &IdMap)
        ensures
            r@ == self.spec_properties(),
    ;

    /// The number of property values the object holds.
    fn count_props(&self) -> (r: u32)
        ensures
            r == self.spec_properties().dom().len() as u32,
    {
        let props = self.properties();
        let keys = props.keys();
        proof {
            crate::id_map::lemma_keys_len(props@, keys@);
        }
        keys.len() as u32
    }

    /// The (property id, value) pairs, each property once.
    fn get_properties(&self) -> (r: Vec<(u32, u64)>)
        ensures
            r@.len() == self.spec_properties().dom().len(),
            forall|i: int| 0 <= i < r@.len() ==> #[trigger] self.spec_properties().dom().contains(
                r@[i].0,
            ) && self.spec_properties()[r@[i].0] == r@[i].1,
            forall|i: int, j: int| 0 <= i < j < r@.len() ==> r@[i].0 != r@[j].0,
    {
        self.properties().entries()
    }
}

impl DrmModeObject for DrmPlane {
    open spec fn spec_id(&self) -> u32 {
        self.id
    }

    open spec fn spec_properties(&self) -> Map<u32, u64> {
        self.properties@
    }

    fn id(&self) -> (r: u32) {
        self.id
    }

    fn properties(&self) -> (r: &IdMap) {
        &self.properties
    }
}

impl DrmModeObject for DrmCrtc {
    open spec fn spec_id(&self) -> u32 {
        self.id
    }

    open spec fn spec_properties(&self) -> Map<u32, u64> {
        self.properties@
    }

    fn id(&self) -> (r: u32) {
        self.id
    }

    fn properties(&self) -> (r: &IdMap) {
        &self.properties
    }
}

impl DrmModeObject for DrmEncoder {
    open spec fn spec_id(&self) -> u32 {
        self.id
    }

    open spec fn spec_properties(&self) -> Map<u32, u64> {
        self.properties@
    }

    fn id(&self) -> (r: u32) {
        self.id
    }

    fn properties(&self) -> (r: &IdMap) {
        &self.properties
    }
}

impl DrmModeObject for DrmConnector {
    open spec fn spec_id(&self) -> u32 {
        self.id
    }

    open spec fn spec_properties(&self) -> Map<u32, u64> {
        self.properties@
    }

    fn id(&self) -> (r: u32) {
        self.id
    }

    fn properties(&self) -> (r: &IdMap) {
        &self.properties
    }
}

impl DrmModeObject for DrmFramebuffer {
    open spec fn spec_id(&self) -> u32 {
        self.id
    }

    open spec fn spec_properties(&self) -> Map<u32, u64> {
        self.properties@
    }

    fn id(&self) -> (r: u32) {
        self.id
    }

    fn properties(&self) -> (r: &IdMap) {
        &self.properties
    }
}

/// Marker interfaces that drivers implement for per-object behaviour.
pub trait PlaneFuncs {}

pub trait FramebufferFuncs {}

} // verus!
