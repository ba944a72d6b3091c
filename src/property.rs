use vstd::prelude::*;
use vstd::string::*;
use vstd::utf8::encode_utf8;

verus! {

/// Length of a property name, in bytes.
pub const DRM_PROP_NAME_LEN: usize = 32;

/// Property flag: value changes are pending.
pub const PROP_PENDING: u32 = 0x1;
/// Property flag: an unsigned range.
pub const PROP_RANGE: u32 = 0x2;
/// Property flag: the value cannot be changed by clients.
pub const PROP_IMMUTABLE: u32 = 0x4;
/// Property flag: an enumeration.
pub const PROP_ENUM: u32 = 0x8;
/// Property flag: a blob.
pub const PROP_BLOB: u32 = 0x10;
/// Property flag: a bitmask.
pub const PROP_BITMASK: u32 = 0x20;
/// Property flag: only atomic clients see the property.
pub const PROP_ATOMIC: u32 = 0x8000_0000;

/// The flag bits of a property definition.
#[derive(Clone, Copy, PartialEq, Eq, Debug, Structural)]
pub struct PropertyFlags {
    pub bits: u32,
}

impl PropertyFlags {
    pub fn from_bits(bits: u32) -> (r: PropertyFlags)
        ensures
            r.bits == bits,
    {
        PropertyFlags { bits }
    }

    pub fn bits(&self) -> (r: u32)
        ensures
            r == self.bits,
    {
        self.bits
    }
}

/// A name of at most `DRM_PROP_NAME_LEN` bytes, cut there if longer and
/// padded with zero bytes.
pub open spec fn fixed_name(b: Seq<u8>) -> Seq<u8> {
    Seq::new(32, |i: int| if i < b.len() { b[i] } else { 0u8 })
}

/// Copies the bytes of `s` into a zero-padded 32-byte name.
pub fn str_to_u8_32(s: &str) -> (r: [u8; 32])
    ensures
        r@ == fixed_name(s.spec_bytes()),
{
    let mut buf = [0u8; 32];
    let bytes = s.as_bytes();
    let len: usize = if bytes.len() < 32 { bytes.len() } else { 32 };
    let mut i: usize = 0;
    while i < len
        invariant
            len <= 32,
            len <= bytes@.len(),
            bytes@ == s.spec_bytes(),
            i <= len,
            forall|j: int| 0 <= j < i ==> buf@[j] == bytes@[j],
            forall|j: int| len <= j < 32 ==> buf@[j] == 0u8,
        decreases len - i,
    {
        buf[i] = bytes[i];
        i = i + 1;
    }
    assert(buf@ =~= fixed_name(s.spec_bytes()));
    buf
}

/// The kind of object that an object-reference property points to.
#[derive(Clone, Copy, PartialEq, Eq, Debug, Structural)]
pub enum DrmModeObjectType {
    Any,
    Crtc,
    Connector,
    Encoder,
    Mode,
    Property,
    FB,
    Blob,
    Plane,
}

/// The tag that identifies each object type on the wire.
pub open spec fn object_type_tag(t: DrmModeObjectType) -> u32 {
    match t {
        DrmModeObjectType::Any => 0,
        DrmModeObjectType::Crtc => 0xCCCC_CCCC,
        DrmModeObjectType::Connector => 0xC0C0_C0C0,
        DrmModeObjectType::Encoder => 0xE0E0_E0E0,
        DrmModeObjectType::Mode => 0xDEDE_DEDE,
        DrmModeObjectType::Property => 0xB0B0_B0B0,
        DrmModeObjectType::FB => 0xFBFB_FBFB,
        DrmModeObjectType::Blob => 0xBBBB_BBBB,
        DrmModeObjectType::Plane => 0xEEEE_EEEE,
    }
}

impl DrmModeObjectType {
    pub fn tag(&self) -> (r: u32)
        ensures
            r == object_type_tag(*self),
    {
        match self {
            DrmModeObjectType::Any => 0,
            DrmModeObjectType::Crtc => 0xCCCC_CCCC,
            DrmModeObjectType::Connector => 0xC0C0_C0C0,
            DrmModeObjectType::Encoder => 0xE0E0_E0E0,
            DrmModeObjectType::Mode => 0xDEDE_DEDE,
            DrmModeObjectType::Property => 0xB0B0_B0B0,
            DrmModeObjectType::FB => 0xFBFB_FBFB,
            DrmModeObjectType::Blob => 0xBBBB_BBBB,
            DrmModeObjectType::Plane => 0xEEEE_EEEE,
        }
    }
}

/// What kind of value a property holds, and its range or entries.
#[derive(Debug)]
#[allow(inconsistent_fields)]
pub enum PropertyKind {
    Range { min: u64, max: u64 },
    SignedRange { min: i64, max: i64 },
    Enum(Vec<(u64, String)>),
    Bitmask(Vec<(u64, String)>),
    Blob(u32),
    Object(DrmModeObjectType),
}

/// A property blob: opaque bytes under an id.
#[derive(Debug)]
pub struct DrmModeBlob {
    pub id: u32,
    pub data: Vec<u8>,
}

/// A property definition: name, flags and value kind.
#[derive(Debug)]
pub struct DrmProperty {
    name: [u8; DRM_PROP_NAME_LEN],
    flags: PropertyFlags,
    kind: PropertyKind,
}

/// How many values a property of this kind reports.
pub open spec fn kind_count_values(k: PropertyKind) -> u32 {
    match k {
        PropertyKind::Range { .. } => 2,
        PropertyKind::SignedRange { .. } => 2,
        PropertyKind::Enum(e) => e@.len() as u32,
        PropertyKind::Bitmask(e) => e@.len() as u32,
        PropertyKind::Blob(_) => 1,
        PropertyKind::Object(_) => 1,
    }
}

/// How many enum entries (or blobs) a property of this kind reports.
pub open spec fn kind_count_enum_blobs(k: PropertyKind) -> u32 {
    match k {
        PropertyKind::Enum(e) => e@.len() as u32,
        PropertyKind::Bitmask(e) => e@.len() as u32,
        PropertyKind::Blob(_) => 1,
        _ => 0,
    }
}

/// The entries of an enum property, as values and names.
pub open spec fn enum_entries_view(e: Seq<(u64, &str)>) -> Seq<(u64, Seq<char>)> {
    e.map_values(|p: (u64, &str)| (p.0, p.1@))
}

/// The entries stored in a property, as values and names.
pub open spec fn stored_entries_view(e: Seq<(u64, String)>) -> Seq<(u64, Seq<char>)> {
    e.map_values(|p: (u64, String)| (p.0, p.1@))
}

/// The (value, name record) pairs of stored entries.
pub open spec fn enum_names_view(e: Seq<(u64, String)>) -> Seq<(u64, Seq<u8>)> {
    e.map_values(|p: (u64, String)| (p.0, fixed_name(encode_utf8(p.1@))))
}

impl DrmProperty {
    pub closed spec fn spec_name(&self) -> Seq<u8> {
        self.name@
    }

    pub closed spec fn spec_flags(&self) -> u32 {
        self.flags.bits
    }

    pub closed spec fn spec_kind(&self) -> PropertyKind {
        self.kind
    }

    pub fn name(&self) -> (r: [u8; DRM_PROP_NAME_LEN])
        ensures
            r@ == self.spec_name(),
    {
        self.name
    }

    pub fn flags(&self) -> (r: u32)
        ensures
            r == self.spec_flags(),
    {
        self.flags.bits
    }

    pub fn kind(&self) -> (r: &PropertyKind)
        ensures
            *r == self.spec_kind(),
    {
        &self.kind
    }

    /// A blob property; its blob id is 1.
    pub fn create(name: &str, flags: PropertyFlags) -> (r: DrmProperty)
        ensures
            r.spec_name() == fixed_name(name.spec_bytes()),
            r.spec_flags() == flags.bits,
            r.spec_kind() == PropertyKind::Blob(1),
    {
        DrmProperty { name: str_to_u8_32(name), flags, kind: PropertyKind::Blob(1) }
    }

    /// A range property over `0..=1`.
    pub fn create_bool(name: &str, flags: PropertyFlags) -> (r: DrmProperty)
        ensures
            r.spec_name() == fixed_name(name.spec_bytes()),
            r.spec_flags() == flags.bits | PROP_RANGE,
            r.spec_kind() == (PropertyKind::Range { min: 0, max: 1 }),
    {
        Self::create_range(name, flags, 0, 1)
    }

    /// An unsigned range property over `min..=max`.
    pub fn create_range(name: &str, flags: PropertyFlags, min: u64, max: u64) -> (r: DrmProperty)
        ensures
            r.spec_name() == fixed_name(name.spec_bytes()),
            r.spec_flags() == flags.bits | PROP_RANGE,
            r.spec_kind() == (PropertyKind::Range { min, max }),
    {
        DrmProperty {
            name: str_to_u8_32(name),
            flags: PropertyFlags { bits: flags.bits | PROP_RANGE },
            kind: PropertyKind::Range { min, max },
        }
    }

    /// An enum property with the given (value, name) entries, in order.
    pub fn create_enum(name: &str, flags: PropertyFlags, enums: &[(u64, &str)]) -> (r: DrmProperty)
        ensures
            r.spec_name() == fixed_name(name.spec_bytes()),
            r.spec_flags() == flags.bits | PROP_ENUM,
            r.spec_kind() matches PropertyKind::Enum(e) && stored_entries_view(e@)
                == enum_entries_view(enums@),
    {
        let mut entries: Vec<(u64, String)> = Vec::new();
        let mut i: usize = 0;
        while i < enums.len()
            invariant
                i <= enums@.len(),
                stored_entries_view(entries@) == enum_entries_view(enums@.subrange(0, i as int)),
            decreases enums@.len() - i,
        {
            let ghost before = entries@;
            let (v, s) = enums[i];
            let owned: String = s.to_owned();
            entries.push((v, owned));
            proof {
                let lhs = stored_entries_view(entries@);
                let rhs = enum_entries_view(enums@.subrange(0, i + 1));
                assert(entries@.len() == before.len() + 1);
                assert(stored_entries_view(before).len() == before.len());
                assert(before.len() == i);
                assert(lhs.len() == rhs.len());
                assert forall|j: int| 0 <= j < lhs.len() implies lhs[j] == rhs[j] by {
                    if j < i {
                        assert(entries@[j] == before[j]);
                        assert(stored_entries_view(before)[j] == lhs[j]);
                        assert(enum_entries_view(enums@.subrange(0, i as int))[j] == rhs[j]);
                    } else {
                        assert(entries@[j] == (v, owned));
                    }
                }
                assert(lhs =~= rhs);
            }
            i = i + 1;
        }
        assert(enums@.subrange(0, enums@.len() as int) =~= enums@);
        DrmProperty {
            name: str_to_u8_32(name),
            flags: PropertyFlags { bits: flags.bits | PROP_ENUM },
            kind: PropertyKind::Enum(entries),
        }
    }

    /// 2 for ranges, the entry count for enums and bitmasks, 1 for blobs and
    /// object references.
    pub fn count_values(&self) -> (r: u32)
        ensures
            r == kind_count_values(self.spec_kind()),
    {
        match &self.kind {
            PropertyKind::Range { .. } => 2,
            PropertyKind::SignedRange { .. } => 2,
            PropertyKind::Enum(entries) => entries.len() as u32,
            PropertyKind::Bitmask(entries) => entries.len() as u32,
            PropertyKind::Blob(_) => 1,
            PropertyKind::Object(_) => 1,
        }
    }

    /// The entry count for enums and bitmasks, 1 for blobs, 0 otherwise.
    pub fn count_enum_blobs(&self) -> (r: u32)
        ensures
            r == kind_count_enum_blobs(self.spec_kind()),
    {
        match &self.kind {
            PropertyKind::Enum(entries) => entries.len() as u32,
            PropertyKind::Bitmask(entries) => entries.len() as u32,
            PropertyKind::Blob(_) => 1,
            _ => 0,
        }
    }
}

/// One (value, name) record of an enum property, as written to clients.
#[derive(Debug, Clone, Copy)]
pub struct PropertyEnum {
    pub value: u64,
    pub name: [u8; DRM_PROP_NAME_LEN],
}

impl PropertyEnum {
    pub fn new(value: u64, name: &str) -> (r: PropertyEnum)
        ensures
            r.value == value,
            r.name@ == fixed_name(name.spec_bytes()),
    {
        PropertyEnum { value, name: str_to_u8_32(name) }
    }
}

/// A standard property that a device can register.
pub trait PropertySpec {
    fn name(&self) -> &'static str;

    fn build(&self) -> DrmProperty;
}

} // verus!
