use vstd::prelude::*;
use crate::error::DrmError;
use crate::names::{decimal, with_decimal};
use crate::id_map::IdMap;
use crate::mode::{mode_eq, DrmModeModeInfo};
use crate::objects::{
    DrmModeObject,
    ConnectorStatus, DrmConnector, DrmCrtc, DrmDisplayInfo, DrmEncoder, DrmFramebuffer, DrmModeConnType,
    DrmPlane, EncoderType, PlaneType, KIND_CONNECTOR, KIND_CRTC, KIND_ENCODER, KIND_FRAMEBUFFER,
    KIND_PLANE,
};
use crate::property::DrmProperty;

verus! {

/// Ids of a sequence of planes, in table order.
pub open spec fn plane_ids(s: Seq<DrmPlane>) -> Seq<u32> {
    s.map_values(|o: DrmPlane| o.id)
}

/// Ids of a sequence of CRTCs, in table order.
pub open spec fn crtc_ids(s: Seq<DrmCrtc>) -> Seq<u32> {
    s.map_values(|o: DrmCrtc| o.id)
}

/// Ids of a sequence of encoders, in table order.
pub open spec fn encoder_ids(s: Seq<DrmEncoder>) -> Seq<u32> {
    s.map_values(|o: DrmEncoder| o.id)
}

/// Ids of a sequence of connectors, in table order.
pub open spec fn connector_ids(s: Seq<DrmConnector>) -> Seq<u32> {
    s.map_values(|o: DrmConnector| o.id)
}

/// Ids of a sequence of framebuffers, in table order.
pub open spec fn framebuffer_ids(s: Seq<DrmFramebuffer>) -> Seq<u32> {
    s.map_values(|o: DrmFramebuffer| o.id)
}

/// Ids of a property table, in table order.
pub open spec fn property_ids(s: Seq<RegisteredProperty>) -> Seq<u32> {
    s.map_values(|p: RegisteredProperty| p.id)
}

/// A property definition with the id it is registered under.
#[derive(Debug)]
pub struct RegisteredProperty {
    pub id: u32,
    pub property: DrmProperty,
}

/// The per-device registry of mode-setting objects and property
/// definitions. It owns the allocation of object ids, property ids and
/// CRTC and encoder indices.
#[derive(Debug)]
pub struct DrmModeConfig {
    pub planes: Vec<DrmPlane>,
    pub crtcs: Vec<DrmCrtc>,
    pub encoders: Vec<DrmEncoder>,
    pub connectors: Vec<DrmConnector>,
    pub framebuffers: Vec<DrmFramebuffer>,
    pub next_object_id: u32,
    /// Every live object id, mapped to the kind of its table.
    pub objects: IdMap,
    pub next_prop_id: u32,
    pub properties: Vec<RegisteredProperty>,
    pub crtc_index: u8,
    pub encoder_index: u8,
    pub preferred_depth: u32,
    pub prefer_shadow: u32,
    pub min_width: u32,
    pub max_width: u32,
    pub min_height: u32,
    pub max_height: u32,
    pub cursor_width: u32,
    pub cursor_height: u32,
    pub fb_modifiers_not_supported: bool,
    pub async_page_flip: bool,
}

/// The settings of a registry that no object operation changes.
pub open spec fn same_settings(a: DrmModeConfig, b: DrmModeConfig) -> bool {
    &&& a.preferred_depth == b.preferred_depth
    &&& a.prefer_shadow == b.prefer_shadow
    &&& a.min_width == b.min_width
    &&& a.max_width == b.max_width
    &&& a.min_height == b.min_height
    &&& a.max_height == b.max_height
    &&& a.cursor_width == b.cursor_width
    &&& a.cursor_height == b.cursor_height
    &&& a.fb_modifiers_not_supported == b.fb_modifiers_not_supported
    &&& a.async_page_flip == b.async_page_flip
}

/// `b` is `a` with the tables other than those of kind `kind` unchanged.
pub open spec fn unchanged_but(a: DrmModeConfig, b: DrmModeConfig, kind: u64) -> bool {
    &&& kind != KIND_PLANE ==> b.planes_view() == a.planes_view()
    &&& kind != KIND_CRTC ==> b.crtcs_view() == a.crtcs_view() && b.spec_crtc_index()
        == a.spec_crtc_index()
    &&& kind != KIND_ENCODER ==> b.encoders_view() == a.encoders_view() && b.spec_encoder_index()
        == a.spec_encoder_index()
    &&& kind != KIND_CONNECTOR ==> b.connectors_view() == a.connectors_view()
    &&& kind != KIND_FRAMEBUFFER ==> b.framebuffers_view() == a.framebuffers_view()
    &&& b.properties_view() == a.properties_view()
    &&& b.spec_next_prop_id() == a.spec_next_prop_id()
    &&& same_settings(a, b)
}

/// `b` is `a` after an object of kind `kind` was created under the id `id`:
/// the id is the counter's value, the counter moved past it, and the other
/// tables are as they were.
pub open spec fn object_created(a: DrmModeConfig, b: DrmModeConfig, id: u32, kind: u64) -> bool {
    &&& id == a.spec_next_object_id()
    &&& b.spec_next_object_id() == id + 1
    &&& b.objects_view() == a.objects_view().insert(id, kind)
    &&& unchanged_but(a, b, kind)
}

/// `b` is `a` after a property definition was registered under `id`.
pub open spec fn property_registered(a: DrmModeConfig, b: DrmModeConfig, id: u32) -> bool {
    &&& id == a.spec_next_prop_id()
    &&& b.spec_next_prop_id() == id + 1
    &&& property_ids(b.properties_view()) == property_ids(a.properties_view()).push(id)
    &&& b.properties_view().drop_last() == a.properties_view()
    &&& b.planes_view() == a.planes_view()
    &&& b.crtcs_view() == a.crtcs_view()
    &&& b.encoders_view() == a.encoders_view()
    &&& b.connectors_view() == a.connectors_view()
    &&& b.framebuffers_view() == a.framebuffers_view()
    &&& b.objects_view() == a.objects_view()
    &&& b.spec_next_object_id() == a.spec_next_object_id()
    &&& same_settings(a, b)
}

/// A bit mask with bit `i` set for each index `i` of `indices`.
pub open spec fn index_mask(indices: Seq<u8>) -> u32
    decreases indices.len(),
{
    if indices.len() == 0 {
        0
    } else {
        index_mask(indices.drop_last()) | (1u32 << (indices.last() as u32))
    }
}

/// The plane with id `id` in a table of planes.
pub open spec fn plane_at(s: Seq<DrmPlane>, id: u32) -> DrmPlane {
    s[choose|i: int| 0 <= i < s.len() && s[i].id == id]
}

/// The crtc with id `id` in a table of crtcs.
pub open spec fn crtc_at(s: Seq<DrmCrtc>, id: u32) -> DrmCrtc {
    s[choose|i: int| 0 <= i < s.len() && s[i].id == id]
}

/// The encoder with id `id` in a table of encoders.
pub open spec fn encoder_at(s: Seq<DrmEncoder>, id: u32) -> DrmEncoder {
    s[choose|i: int| 0 <= i < s.len() && s[i].id == id]
}

/// The connector with id `id` in a table of connectors.
pub open spec fn connector_at(s: Seq<DrmConnector>, id: u32) -> DrmConnector {
    s[choose|i: int| 0 <= i < s.len() && s[i].id == id]
}

/// The framebuffer with id `id` in a table of framebuffers.
pub open spec fn framebuffer_at(s: Seq<DrmFramebuffer>, id: u32) -> DrmFramebuffer {
    s[choose|i: int| 0 <= i < s.len() && s[i].id == id]
}

/// The property definition registered under `id`.
pub open spec fn property_at(s: Seq<RegisteredProperty>, id: u32) -> DrmProperty {
    s[choose|i: int| 0 <= i < s.len() && s[i].id == id].property
}

/// The framebuffer id shown through the plane with id `id`, 0 for none.
pub open spec fn plane_fb_id(cfg: DrmModeConfig, id: u32) -> u32 {
    if plane_ids(cfg.planes@).contains(id) {
        plane_at(cfg.planes@, id).fb_id
    } else {
        0
    }
}

/// The name a CRTC gets when its creator gives none.
pub open spec fn default_crtc_name(id: u32) -> Seq<char> {
    seq!['c', 'r', 't', 'c', '-'].add(decimal(id as nat))
}

/// The index of the CRTC with id `id` in a CRTC table.
pub open spec fn crtc_index_of(crtcs: Seq<DrmCrtc>, id: u32) -> u8 {
    crtcs[choose|i: int| 0 <= i < crtcs.len() && crtcs[i].id == id].index
}

/// The index of the encoder with id `id` in an encoder table.
pub open spec fn encoder_index_of(encoders: Seq<DrmEncoder>, id: u32) -> u8 {
    encoders[choose|i: int| 0 <= i < encoders.len() && encoders[i].id == id].index
}

/// The indices of the CRTCs with the given ids.
pub open spec fn crtc_indices(crtcs: Seq<DrmCrtc>, ids: Seq<u32>) -> Seq<u8> {
    ids.map_values(|id: u32| crtc_index_of(crtcs, id))
}

/// The indices of the encoders with the given ids.
pub open spec fn encoder_indices(encoders: Seq<DrmEncoder>, ids: Seq<u32>) -> Seq<u8> {
    ids.map_values(|id: u32| encoder_index_of(encoders, id))
}

/// Every id of `ids` names an entry of `table`.
pub open spec fn all_in(ids: Seq<u32>, table: Seq<u32>) -> bool {
    forall|j: int| 0 <= j < ids.len() ==> table.contains(#[trigger] ids[j])
}

/// The modes of `s` in order of first occurrence, each once.
pub open spec fn dedup_modes(s: Seq<DrmModeModeInfo>) -> Seq<DrmModeModeInfo>
    decreases s.len(),
{
    if s.len() == 0 {
        Seq::empty()
    } else {
        let d = dedup_modes(s.drop_last());
        if d.contains(s.last()) {
            d
        } else {
            d.push(s.last())
        }
    }
}

/// Whether `v` holds the mode `m`.
fn contains_mode(v: &Vec<DrmModeModeInfo>, m: &DrmModeModeInfo) -> (r: bool)
    ensures
        r == v@.contains(*m),
{
    let mut i: usize = 0;
    while i < v.len()
        invariant
            i <= v@.len(),
            forall|j: int| 0 <= j < i ==> v@[j] != *m,
        decreases v@.len() - i,
    {
        if mode_eq(&v[i], m) {
            return true;
        }
        i = i + 1;
    }
    false
}

/// The element of a table whose ids have no duplicates is fixed by its id.
pub(crate) proof fn lemma_unique_pos(ids: Seq<u32>, i: int, j: int)
    requires
        ids.no_duplicates(),
        0 <= i < ids.len(),
        0 <= j < ids.len(),
        ids[i] == ids[j],
    ensures
        i == j,
{
}

/// `b`'s table of kind `kind` is `a`'s with one object of id `id` added at
/// the end; every other table is as it was.
pub open spec fn table_grew(a: DrmModeConfig, b: DrmModeConfig, id: u32, kind: u64) -> bool {
    &&& if kind == KIND_PLANE {
        b.planes@.drop_last() == a.planes@ && b.planes@.len() == a.planes@.len() + 1 && b.planes@.last().id == id
    } else {
        b.planes@ == a.planes@
    }
    &&& if kind == KIND_CRTC {
        b.crtcs@.drop_last() == a.crtcs@ && b.crtcs@.len() == a.crtcs@.len() + 1 && b.crtcs@.last().id == id
    } else {
        b.crtcs@ == a.crtcs@
    }
    &&& if kind == KIND_ENCODER {
        b.encoders@.drop_last() == a.encoders@ && b.encoders@.len() == a.encoders@.len() + 1 && b.encoders@.last().id == id
    } else {
        b.encoders@ == a.encoders@
    }
    &&& if kind == KIND_CONNECTOR {
        b.connectors@.drop_last() == a.connectors@ && b.connectors@.len() == a.connectors@.len() + 1 && b.connectors@.last().id == id
    } else {
        b.connectors@ == a.connectors@
    }
    &&& if kind == KIND_FRAMEBUFFER {
        b.framebuffers@.drop_last() == a.framebuffers@ && b.framebuffers@.len() == a.framebuffers@.len() + 1 && b.framebuffers@.last().id == id
    } else {
        b.framebuffers@ == a.framebuffers@
    }
}

/// Adding an object under the next id keeps the registry valid, provided
/// the CRTC and encoder indices stay valid.
proof fn lemma_object_added(o: DrmModeConfig, n: DrmModeConfig, id: u32, kind: u64)
    requires
        o.wf(),
        KIND_PLANE <= kind <= KIND_FRAMEBUFFER,
        id == o.next_object_id,
        n.next_object_id == id + 1,
        n.objects@ == o.objects@.insert(id, kind),
        table_grew(o, n, id, kind),
        n.properties@ == o.properties@,
        n.next_prop_id == o.next_prop_id,
        n.crtc_index <= 32,
        forall|i: int| 0 <= i < n.crtcs@.len() ==> #[trigger] n.crtcs@[i].index < n.crtc_index,
        forall|i: int, j: int|
            0 <= i < j < n.crtcs@.len() ==> #[trigger] n.crtcs@[i].index != #[trigger] n.crtcs@[j].index,
        n.encoder_index <= 32,
        forall|i: int| 0 <= i < n.encoders@.len() ==> #[trigger] n.encoders@[i].index < n.encoder_index,
        forall|i: int, j: int|
            0 <= i < j < n.encoders@.len() ==> #[trigger] n.encoders@[i].index
                != #[trigger] n.encoders@[j].index,
    ensures
        n.wf(),
{
    assert forall|i: int| 0 <= i < n.planes@.len() implies #[trigger] n.objects@.dom().contains(n.planes@[i].id)
        && n.objects@[n.planes@[i].id] == KIND_PLANE by {
        if i < o.planes@.len() {
            assert(n.planes@[i] == o.planes@[i]);
            assert(o.objects@.dom().contains(o.planes@[i].id));
        }
    }
    if kind == KIND_PLANE {
        assert(plane_ids(n.planes@) =~= plane_ids(o.planes@).push(id));
        assert(!plane_ids(o.planes@).contains(id)) by {
            if plane_ids(o.planes@).contains(id) {
                let k = choose|k: int| 0 <= k < plane_ids(o.planes@).len() && plane_ids(o.planes@)[k] == id;
                assert(o.objects@.dom().contains(o.planes@[k].id));
            }
        }
    }
    assert forall|i: int| 0 <= i < n.crtcs@.len() implies #[trigger] n.objects@.dom().contains(n.crtcs@[i].id)
        && n.objects@[n.crtcs@[i].id] == KIND_CRTC by {
        if i < o.crtcs@.len() {
            assert(n.crtcs@[i] == o.crtcs@[i]);
            assert(o.objects@.dom().contains(o.crtcs@[i].id));
        }
    }
    if kind == KIND_CRTC {
        assert(crtc_ids(n.crtcs@) =~= crtc_ids(o.crtcs@).push(id));
        assert(!crtc_ids(o.crtcs@).contains(id)) by {
            if crtc_ids(o.crtcs@).contains(id) {
                let k = choose|k: int| 0 <= k < crtc_ids(o.crtcs@).len() && crtc_ids(o.crtcs@)[k] == id;
                assert(o.objects@.dom().contains(o.crtcs@[k].id));
            }
        }
    }
    assert forall|i: int| 0 <= i < n.encoders@.len() implies #[trigger] n.objects@.dom().contains(n.encoders@[i].id)
        && n.objects@[n.encoders@[i].id] == KIND_ENCODER by {
        if i < o.encoders@.len() {
            assert(n.encoders@[i] == o.encoders@[i]);
            assert(o.objects@.dom().contains(o.encoders@[i].id));
        }
    }
    if kind == KIND_ENCODER {
        assert(encoder_ids(n.encoders@) =~= encoder_ids(o.encoders@).push(id));
        assert(!encoder_ids(o.encoders@).contains(id)) by {
            if encoder_ids(o.encoders@).contains(id) {
                let k = choose|k: int| 0 <= k < encoder_ids(o.encoders@).len() && encoder_ids(o.encoders@)[k] == id;
                assert(o.objects@.dom().contains(o.encoders@[k].id));
            }
        }
    }
    assert forall|i: int| 0 <= i < n.connectors@.len() implies #[trigger] n.objects@.dom().contains(n.connectors@[i].id)
        && n.objects@[n.connectors@[i].id] == KIND_CONNECTOR by {
        if i < o.connectors@.len() {
            assert(n.connectors@[i] == o.connectors@[i]);
            assert(o.objects@.dom().contains(o.connectors@[i].id));
        }
    }
    if kind == KIND_CONNECTOR {
        assert(connector_ids(n.connectors@) =~= connector_ids(o.connectors@).push(id));
        assert(!connector_ids(o.connectors@).contains(id)) by {
            if connector_ids(o.connectors@).contains(id) {
                let k = choose|k: int| 0 <= k < connector_ids(o.connectors@).len() && connector_ids(o.connectors@)[k] == id;
                assert(o.objects@.dom().contains(o.connectors@[k].id));
            }
        }
    }
    assert forall|i: int| 0 <= i < n.framebuffers@.len() implies #[trigger] n.objects@.dom().contains(n.framebuffers@[i].id)
        && n.objects@[n.framebuffers@[i].id] == KIND_FRAMEBUFFER by {
        if i < o.framebuffers@.len() {
            assert(n.framebuffers@[i] == o.framebuffers@[i]);
            assert(o.objects@.dom().contains(o.framebuffers@[i].id));
        }
    }
    if kind == KIND_FRAMEBUFFER {
        assert(framebuffer_ids(n.framebuffers@) =~= framebuffer_ids(o.framebuffers@).push(id));
        assert(!framebuffer_ids(o.framebuffers@).contains(id)) by {
            if framebuffer_ids(o.framebuffers@).contains(id) {
                let k = choose|k: int| 0 <= k < framebuffer_ids(o.framebuffers@).len() && framebuffer_ids(o.framebuffers@)[k] == id;
                assert(o.objects@.dom().contains(o.framebuffers@[k].id));
            }
        }
    }
    assert forall|x: u32| #[trigger] n.objects@.dom().contains(x) implies x < n.next_object_id && {
        ||| n.objects@[x] == KIND_PLANE && plane_ids(n.planes@).contains(x)
        ||| n.objects@[x] == KIND_CRTC && crtc_ids(n.crtcs@).contains(x)
        ||| n.objects@[x] == KIND_ENCODER && encoder_ids(n.encoders@).contains(x)
        ||| n.objects@[x] == KIND_CONNECTOR && connector_ids(n.connectors@).contains(x)
        ||| n.objects@[x] == KIND_FRAMEBUFFER && framebuffer_ids(n.framebuffers@).contains(x)
    } by {
        if x == id && kind == KIND_PLANE {
            assert(plane_ids(n.planes@)[plane_ids(o.planes@).len() as int] == id);
        }
        if x == id && kind == KIND_CRTC {
            assert(crtc_ids(n.crtcs@)[crtc_ids(o.crtcs@).len() as int] == id);
        }
        if x == id && kind == KIND_ENCODER {
            assert(encoder_ids(n.encoders@)[encoder_ids(o.encoders@).len() as int] == id);
        }
        if x == id && kind == KIND_CONNECTOR {
            assert(connector_ids(n.connectors@)[connector_ids(o.connectors@).len() as int] == id);
        }
        if x == id && kind == KIND_FRAMEBUFFER {
            assert(framebuffer_ids(n.framebuffers@)[framebuffer_ids(o.framebuffers@).len() as int] == id);
        }
        if x != id {
            assert(o.objects@.dom().contains(x));
            if o.objects@[x] == KIND_PLANE {
                let k = choose|k: int| 0 <= k < plane_ids(o.planes@).len() && plane_ids(o.planes@)[k] == x;
                assert(plane_ids(n.planes@)[k] == x);
            }
            if o.objects@[x] == KIND_CRTC {
                let k = choose|k: int| 0 <= k < crtc_ids(o.crtcs@).len() && crtc_ids(o.crtcs@)[k] == x;
                assert(crtc_ids(n.crtcs@)[k] == x);
            }
            if o.objects@[x] == KIND_ENCODER {
                let k = choose|k: int| 0 <= k < encoder_ids(o.encoders@).len() && encoder_ids(o.encoders@)[k] == x;
                assert(encoder_ids(n.encoders@)[k] == x);
            }
            if o.objects@[x] == KIND_CONNECTOR {
                let k = choose|k: int| 0 <= k < connector_ids(o.connectors@).len() && connector_ids(o.connectors@)[k] == x;
                assert(connector_ids(n.connectors@)[k] == x);
            }
            if o.objects@[x] == KIND_FRAMEBUFFER {
                let k = choose|k: int| 0 <= k < framebuffer_ids(o.framebuffers@).len() && framebuffer_ids(o.framebuffers@)[k] == x;
                assert(framebuffer_ids(n.framebuffers@)[k] == x);
            }
        }
    }
}

impl DrmModeConfig {
    pub open spec fn planes_view(&self) -> Seq<DrmPlane> {
        self.planes@
    }

    pub open spec fn crtcs_view(&self) -> Seq<DrmCrtc> {
        self.crtcs@
    }

    pub open spec fn encoders_view(&self) -> Seq<DrmEncoder> {
        self.encoders@
    }

    pub open spec fn connectors_view(&self) -> Seq<DrmConnector> {
        self.connectors@
    }

    pub open spec fn framebuffers_view(&self) -> Seq<DrmFramebuffer> {
        self.framebuffers@
    }

    pub open spec fn properties_view(&self) -> Seq<RegisteredProperty> {
        self.properties@
    }

    /// Every live object id, mapped to its kind.
    pub open spec fn objects_view(&self) -> Map<u32, u64> {
        self.objects@
    }

    pub open spec fn spec_next_object_id(&self) -> u32 {
        self.next_object_id
    }

    pub open spec fn spec_next_prop_id(&self) -> u32 {
        self.next_prop_id
    }

    pub open spec fn spec_crtc_index(&self) -> u8 {
        self.crtc_index
    }

    pub open spec fn spec_encoder_index(&self) -> u8 {
        self.encoder_index
    }

    /// The registry's invariant: object ids are unique across all tables
    /// and below the id counter; property ids are unique, positive and below
    /// their counter; CRTC and encoder indices are unique in their kind and
    /// below 32.
    pub open spec fn wf(&self) -> bool {
        &&& self.objects@.dom().finite()
        &&& self.planes@.len() + self.crtcs@.len() + self.encoders@.len() + self.connectors@.len()
            + self.framebuffers@.len() <= self.next_object_id
        &&& forall|i: int|
            0 <= i < self.planes@.len() ==> #[trigger] self.objects@.dom().contains(
                self.planes@[i].id,
            ) && self.objects@[self.planes@[i].id] == KIND_PLANE
        &&& forall|i: int|
            0 <= i < self.crtcs@.len() ==> #[trigger] self.objects@.dom().contains(
                self.crtcs@[i].id,
            ) && self.objects@[self.crtcs@[i].id] == KIND_CRTC
        &&& forall|i: int|
            0 <= i < self.encoders@.len() ==> #[trigger] self.objects@.dom().contains(
                self.encoders@[i].id,
            ) && self.objects@[self.encoders@[i].id] == KIND_ENCODER
        &&& forall|i: int|
            0 <= i < self.connectors@.len() ==> #[trigger] self.objects@.dom().contains(
                self.connectors@[i].id,
            ) && self.objects@[self.connectors@[i].id] == KIND_CONNECTOR
        &&& forall|i: int|
            0 <= i < self.framebuffers@.len() ==> #[trigger] self.objects@.dom().contains(
                self.framebuffers@[i].id,
            ) && self.objects@[self.framebuffers@[i].id] == KIND_FRAMEBUFFER
        &&& forall|id: u32| #[trigger]
            self.objects@.dom().contains(id) ==> id < self.next_object_id && {
                ||| self.objects@[id] == KIND_PLANE && plane_ids(self.planes@).contains(id)
                ||| self.objects@[id] == KIND_CRTC && crtc_ids(self.crtcs@).contains(id)
                ||| self.objects@[id] == KIND_ENCODER && encoder_ids(self.encoders@).contains(id)
                ||| self.objects@[id] == KIND_CONNECTOR && connector_ids(
                    self.connectors@,
                ).contains(id)
                ||| self.objects@[id] == KIND_FRAMEBUFFER && framebuffer_ids(
                    self.framebuffers@,
                ).contains(id)
            }
        &&& plane_ids(self.planes@).no_duplicates()
        &&& crtc_ids(self.crtcs@).no_duplicates()
        &&& encoder_ids(self.encoders@).no_duplicates()
        &&& connector_ids(self.connectors@).no_duplicates()
        &&& framebuffer_ids(self.framebuffers@).no_duplicates()
        &&& self.next_prop_id >= 1
        &&& property_ids(self.properties@).no_duplicates()
        &&& forall|i: int|
            0 <= i < self.properties@.len() ==> 1 <= #[trigger] self.properties@[i].id
                < self.next_prop_id
        &&& self.crtc_index <= 32
        &&& forall|i: int| 0 <= i < self.crtcs@.len() ==> #[trigger] self.crtcs@[i].index < self.crtc_index
        &&& forall|i: int, j: int|
            0 <= i < j < self.crtcs@.len() ==> #[trigger] self.crtcs@[i].index
                != #[trigger] self.crtcs@[j].index
        &&& self.encoder_index <= 32
        &&& forall|i: int|
            0 <= i < self.encoders@.len() ==> #[trigger] self.encoders@[i].index
                < self.encoder_index
        &&& forall|i: int, j: int|
            0 <= i < j < self.encoders@.len() ==> #[trigger] self.encoders@[i].index
                != #[trigger] self.encoders@[j].index
    }

    /// An empty registry with the default limits.
    pub fn default() -> (r: DrmModeConfig)
        ensures
            r.wf(),
            r.planes_view().len() == 0,
            r.crtcs_view().len() == 0,
            r.encoders_view().len() == 0,
            r.connectors_view().len() == 0,
            r.framebuffers_view().len() == 0,
            r.properties_view().len() == 0,
            r.objects_view().dom().len() == 0,
            r.spec_next_object_id() == 0,
            r.spec_next_prop_id() == 1,
            r.spec_crtc_index() == 0,
            r.spec_encoder_index() == 0,
            r.preferred_depth == 16,
            r.prefer_shadow == 0,
            r.min_width == 1,
            r.max_width == 8192,
            r.min_height == 1,
            r.max_height == 8192,
            r.cursor_width == 32,
            r.cursor_height == 32,
            r.fb_modifiers_not_supported,
            !r.async_page_flip,
    {
        let r = DrmModeConfig {
            planes: Vec::new(),
            crtcs: Vec::new(),
            encoders: Vec::new(),
            connectors: Vec::new(),
            framebuffers: Vec::new(),
            next_object_id: 0,
            objects: IdMap::new(),
            next_prop_id: 1,
            properties: Vec::new(),
            crtc_index: 0,
            encoder_index: 0,
            preferred_depth: 16,
            prefer_shadow: 0,
            min_width: 1,
            max_width: 8192,
            min_height: 1,
            max_height: 8192,
            cursor_width: 32,
            cursor_height: 32,
            fb_modifiers_not_supported: true,
            async_page_flip: false,
        };
        proof {
            assert(r.objects@.dom() =~= Set::empty());
            assert(plane_ids(r.planes@) =~= Seq::empty());
            assert(crtc_ids(r.crtcs@) =~= Seq::empty());
            assert(encoder_ids(r.encoders@) =~= Seq::empty());
            assert(connector_ids(r.connectors@) =~= Seq::empty());
            assert(framebuffer_ids(r.framebuffers@) =~= Seq::empty());
            assert(property_ids(r.properties@) =~= Seq::empty());
        }
        r
    }

    /// Registers the device-independent standard properties. There are none
    /// yet: the registry is left as it is.
    pub fn init_standard_properties(&mut self)
        ensures
            *final(self) == *old(self),
    {
    }

    /// Takes the next object id and moves the counter past it; fails when
    /// the id space is used up.
    pub fn next_object_id(&mut self) -> (r: Result<u32, DrmError>)
        ensures
            old(self).wf() ==> final(self).wf(),
            match r {
                Ok(id) => id == old(self).next_object_id && final(self).next_object_id == id
                    + 1,
                Err(e) => e == DrmError::Exhausted && old(self).next_object_id == u32::MAX
                    && final(self).next_object_id == old(self).next_object_id,
            },
            final(self).planes == old(self).planes,
            final(self).crtcs == old(self).crtcs,
            final(self).encoders == old(self).encoders,
            final(self).connectors == old(self).connectors,
            final(self).framebuffers == old(self).framebuffers,
            final(self).objects == old(self).objects,
            final(self).properties == old(self).properties,
            final(self).next_prop_id == old(self).next_prop_id,
            final(self).crtc_index == old(self).crtc_index,
            final(self).encoder_index == old(self).encoder_index,
            same_settings(*old(self), *final(self)),
    {
        if self.next_object_id == u32::MAX {
            return Err(DrmError::Exhausted);
        }
        let id = self.next_object_id;
        self.next_object_id = id + 1;
        Ok(id)
    }

    /// Position of the plane with id `id` in its table.
    fn find_plane(&self, id: u32) -> (r: Option<usize>)
        requires
            self.wf(),
        ensures
            r matches Some(i) ==> i < self.planes@.len() && self.planes@[i as int].id == id,
            r is None <==> !plane_ids(self.planes@).contains(id),
    {
        let mut i: usize = 0;
        while i < self.planes.len()
            invariant
                i <= self.planes@.len(),
                forall|j: int| 0 <= j < i ==> self.planes@[j].id != id,
            decreases self.planes@.len() - i,
        {
            if self.planes[i].id == id {
                assert(plane_ids(self.planes@)[i as int] == id);
                return Some(i);
            }
            i = i + 1;
        }
        proof {
            if plane_ids(self.planes@).contains(id) {
                let k = choose|k: int| 0 <= k < plane_ids(self.planes@).len() && plane_ids(self.planes@)[k] == id;
                assert(self.planes@[k].id == id);
            }
        }
        None
    }

    /// The number of planes.
    pub fn count_planes(&self) -> (r: u32)
        ensures
            r == self.planes@.len() as u32,
    {
        self.planes.len() as u32
    }

    /// The ids of the planes, in table order.
    pub fn planes_id(&self) -> (r: Vec<u32>)
        ensures
            r@ == plane_ids(self.planes@),
    {
        let mut ids: Vec<u32> = Vec::new();
        let mut i: usize = 0;
        while i < self.planes.len()
            invariant
                i <= self.planes@.len(),
                ids@ == plane_ids(self.planes@.subrange(0, i as int)),
            decreases self.planes@.len() - i,
        {
            ids.push(self.planes[i].id);
            i = i + 1;
            assert(ids@ =~= plane_ids(self.planes@.subrange(0, i as int)));
        }
        assert(self.planes@.subrange(0, i as int) =~= self.planes@);
        ids
    }

    /// Position of the crtc with id `id` in its table.
    fn find_crtc(&self, id: u32) -> (r: Option<usize>)
        requires
            self.wf(),
        ensures
            r matches Some(i) ==> i < self.crtcs@.len() && self.crtcs@[i as int].id == id,
            r is None <==> !crtc_ids(self.crtcs@).contains(id),
    {
        let mut i: usize = 0;
        while i < self.crtcs.len()
            invariant
                i <= self.crtcs@.len(),
                forall|j: int| 0 <= j < i ==> self.crtcs@[j].id != id,
            decreases self.crtcs@.len() - i,
        {
            if self.crtcs[i].id == id {
                assert(crtc_ids(self.crtcs@)[i as int] == id);
                return Some(i);
            }
            i = i + 1;
        }
        proof {
            if crtc_ids(self.crtcs@).contains(id) {
                let k = choose|k: int| 0 <= k < crtc_ids(self.crtcs@).len() && crtc_ids(self.crtcs@)[k] == id;
                assert(self.crtcs@[k].id == id);
            }
        }
        None
    }

    /// The number of crtcs.
    pub fn count_crtcs(&self) -> (r: u32)
        ensures
            r == self.crtcs@.len() as u32,
    {
        self.crtcs.len() as u32
    }

    /// The ids of the crtcs, in table order.
    pub fn crtcs_id(&self) -> (r: Vec<u32>)
        ensures
            r@ == crtc_ids(self.crtcs@),
    {
        let mut ids: Vec<u32> = Vec::new();
        let mut i: usize = 0;
        while i < self.crtcs.len()
            invariant
                i <= self.crtcs@.len(),
                ids@ == crtc_ids(self.crtcs@.subrange(0, i as int)),
            decreases self.crtcs@.len() - i,
        {
            ids.push(self.crtcs[i].id);
            i = i + 1;
            assert(ids@ =~= crtc_ids(self.crtcs@.subrange(0, i as int)));
        }
        assert(self.crtcs@.subrange(0, i as int) =~= self.crtcs@);
        ids
    }

    /// Position of the encoder with id `id` in its table.
    fn find_encoder(&self, id: u32) -> (r: Option<usize>)
        requires
            self.wf(),
        ensures
            r matches Some(i) ==> i < self.encoders@.len() && self.encoders@[i as int].id == id,
            r is None <==> !encoder_ids(self.encoders@).contains(id),
    {
        let mut i: usize = 0;
        while i < self.encoders.len()
            invariant
                i <= self.encoders@.len(),
                forall|j: int| 0 <= j < i ==> self.encoders@[j].id != id,
            decreases self.encoders@.len() - i,
        {
            if self.encoders[i].id == id {
                assert(encoder_ids(self.encoders@)[i as int] == id);
                return Some(i);
            }
            i = i + 1;
        }
        proof {
            if encoder_ids(self.encoders@).contains(id) {
                let k = choose|k: int| 0 <= k < encoder_ids(self.encoders@).len() && encoder_ids(self.encoders@)[k] == id;
                assert(self.encoders@[k].id == id);
            }
        }
        None
    }

    /// The number of encoders.
    pub fn count_encoders(&self) -> (r: u32)
        ensures
            r == self.encoders@.len() as u32,
    {
        self.encoders.len() as u32
    }

    /// The ids of the encoders, in table order.
    pub fn encoders_id(&self) -> (r: Vec<u32>)
        ensures
            r@ == encoder_ids(self.encoders@),
    {
        let mut ids: Vec<u32> = Vec::new();
        let mut i: usize = 0;
        while i < self.encoders.len()
            invariant
                i <= self.encoders@.len(),
                ids@ == encoder_ids(self.encoders@.subrange(0, i as int)),
            decreases self.encoders@.len() - i,
        {
            ids.push(self.encoders[i].id);
            i = i + 1;
            assert(ids@ =~= encoder_ids(self.encoders@.subrange(0, i as int)));
        }
        assert(self.encoders@.subrange(0, i as int) =~= self.encoders@);
        ids
    }

    /// Position of the connector with id `id` in its table.
    fn find_connector(&self, id: u32) -> (r: Option<usize>)
        requires
            self.wf(),
        ensures
            r matches Some(i) ==> i < self.connectors@.len() && self.connectors@[i as int].id == id,
            r is None <==> !connector_ids(self.connectors@).contains(id),
    {
        let mut i: usize = 0;
        while i < self.connectors.len()
            invariant
                i <= self.connectors@.len(),
                forall|j: int| 0 <= j < i ==> self.connectors@[j].id != id,
            decreases self.connectors@.len() - i,
        {
            if self.connectors[i].id == id {
                assert(connector_ids(self.connectors@)[i as int] == id);
                return Some(i);
            }
            i = i + 1;
        }
        proof {
            if connector_ids(self.connectors@).contains(id) {
                let k = choose|k: int| 0 <= k < connector_ids(self.connectors@).len() && connector_ids(self.connectors@)[k] == id;
                assert(self.connectors@[k].id == id);
            }
        }
        None
    }

    /// The number of connectors.
    pub fn count_connectors(&self) -> (r: u32)
        ensures
            r == self.connectors@.len() as u32,
    {
        self.connectors.len() as u32
    }

    /// The ids of the connectors, in table order.
    pub fn connectors_id(&self) -> (r: Vec<u32>)
        ensures
            r@ == connector_ids(self.connectors@),
    {
        let mut ids: Vec<u32> = Vec::new();
        let mut i: usize = 0;
        while i < self.connectors.len()
            invariant
                i <= self.connectors@.len(),
                ids@ == connector_ids(self.connectors@.subrange(0, i as int)),
            decreases self.connectors@.len() - i,
        {
            ids.push(self.connectors[i].id);
            i = i + 1;
            assert(ids@ =~= connector_ids(self.connectors@.subrange(0, i as int)));
        }
        assert(self.connectors@.subrange(0, i as int) =~= self.connectors@);
        ids
    }

    /// Position of the framebuffer with id `id` in its table.
    fn find_framebuffer(&self, id: u32) -> (r: Option<usize>)
        requires
            self.wf(),
        ensures
            r matches Some(i) ==> i < self.framebuffers@.len() && self.framebuffers@[i as int].id == id,
            r is None <==> !framebuffer_ids(self.framebuffers@).contains(id),
    {
        let mut i: usize = 0;
        while i < self.framebuffers.len()
            invariant
                i <= self.framebuffers@.len(),
                forall|j: int| 0 <= j < i ==> self.framebuffers@[j].id != id,
            decreases self.framebuffers@.len() - i,
        {
            if self.framebuffers[i].id == id {
                assert(framebuffer_ids(self.framebuffers@)[i as int] == id);
                return Some(i);
            }
            i = i + 1;
        }
        proof {
            if framebuffer_ids(self.framebuffers@).contains(id) {
                let k = choose|k: int| 0 <= k < framebuffer_ids(self.framebuffers@).len() && framebuffer_ids(self.framebuffers@)[k] == id;
                assert(self.framebuffers@[k].id == id);
            }
        }
        None
    }

    /// The number of framebuffers.
    pub fn count_framebuffers(&self) -> (r: u32)
        ensures
            r == self.framebuffers@.len() as u32,
    {
        self.framebuffers.len() as u32
    }

    /// The ids of the framebuffers, in table order.
    pub fn framebuffer_id(&self) -> (r: Vec<u32>)
        ensures
            r@ == framebuffer_ids(self.framebuffers@),
    {
        let mut ids: Vec<u32> = Vec::new();
        let mut i: usize = 0;
        while i < self.framebuffers.len()
            invariant
                i <= self.framebuffers@.len(),
                ids@ == framebuffer_ids(self.framebuffers@.subrange(0, i as int)),
            decreases self.framebuffers@.len() - i,
        {
            ids.push(self.framebuffers[i].id);
            i = i + 1;
            assert(ids@ =~= framebuffer_ids(self.framebuffers@.subrange(0, i as int)));
        }
        assert(self.framebuffers@.subrange(0, i as int) =~= self.framebuffers@);
        ids
    }

    pub fn get_plane(&self, id: &u32) -> (r: Option<&DrmPlane>)
        requires
            self.wf(),
        ensures
            r is None <==> !plane_ids(self.planes@).contains(*id),
            r matches Some(o) ==> o.id == *id && self.planes@.contains(*o) && *o == plane_at(self.planes@, *id),
    {
        match self.find_plane(*id) {
            Some(i) => {
                proof {
                    let k = choose|k: int| 0 <= k < self.planes@.len() && self.planes@[k].id == *id;
                    assert(plane_ids(self.planes@)[k] == plane_ids(self.planes@)[i as int]);
                    lemma_unique_pos(plane_ids(self.planes@), k, i as int);
                }
                Some(&self.planes[i])
            },
            None => None,
        }
    }

    pub fn get_crtc(&self, id: &u32) -> (r: Option<&DrmCrtc>)
        requires
            self.wf(),
        ensures
            r is None <==> !crtc_ids(self.crtcs@).contains(*id),
            r matches Some(o) ==> o.id == *id && self.crtcs@.contains(*o) && *o == crtc_at(self.crtcs@, *id),
    {
        match self.find_crtc(*id) {
            Some(i) => {
                proof {
                    let k = choose|k: int| 0 <= k < self.crtcs@.len() && self.crtcs@[k].id == *id;
                    assert(crtc_ids(self.crtcs@)[k] == crtc_ids(self.crtcs@)[i as int]);
                    lemma_unique_pos(crtc_ids(self.crtcs@), k, i as int);
                }
                Some(&self.crtcs[i])
            },
            None => None,
        }
    }

    pub fn get_encoder(&self, id: &u32) -> (r: Option<&DrmEncoder>)
        requires
            self.wf(),
        ensures
            r is None <==> !encoder_ids(self.encoders@).contains(*id),
            r matches Some(o) ==> o.id == *id && self.encoders@.contains(*o) && *o == encoder_at(self.encoders@, *id),
    {
        match self.find_encoder(*id) {
            Some(i) => {
                proof {
                    let k = choose|k: int| 0 <= k < self.encoders@.len() && self.encoders@[k].id == *id;
                    assert(encoder_ids(self.encoders@)[k] == encoder_ids(self.encoders@)[i as int]);
                    lemma_unique_pos(encoder_ids(self.encoders@), k, i as int);
                }
                Some(&self.encoders[i])
            },
            None => None,
        }
    }

    pub fn get_connector(&self, id: &u32) -> (r: Option<&DrmConnector>)
        requires
            self.wf(),
        ensures
            r is None <==> !connector_ids(self.connectors@).contains(*id),
            r matches Some(o) ==> o.id == *id && self.connectors@.contains(*o) && *o == connector_at(self.connectors@, *id),
    {
        match self.find_connector(*id) {
            Some(i) => {
                proof {
                    let k = choose|k: int| 0 <= k < self.connectors@.len() && self.connectors@[k].id == *id;
                    assert(connector_ids(self.connectors@)[k] == connector_ids(self.connectors@)[i as int]);
                    lemma_unique_pos(connector_ids(self.connectors@), k, i as int);
                }
                Some(&self.connectors[i])
            },
            None => None,
        }
    }

    pub fn lookup_framebuffer(&self, id: &u32) -> (r: Option<&DrmFramebuffer>)
        requires
            self.wf(),
        ensures
            r is None <==> !framebuffer_ids(self.framebuffers@).contains(*id),
            r matches Some(o) ==> o.id == *id && self.framebuffers@.contains(*o) && *o == framebuffer_at(self.framebuffers@, *id),
    {
        match self.find_framebuffer(*id) {
            Some(i) => {
                proof {
                    let k = choose|k: int| 0 <= k < self.framebuffers@.len() && self.framebuffers@[k].id == *id;
                    assert(framebuffer_ids(self.framebuffers@)[k] == framebuffer_ids(self.framebuffers@)[i as int]);
                    lemma_unique_pos(framebuffer_ids(self.framebuffers@), k, i as int);
                }
                Some(&self.framebuffers[i])
            },
            None => None,
        }
    }

    /// Takes the next property id and moves the counter past it; fails when
    /// the id space is used up.
    pub fn next_prop_id(&mut self) -> (r: Result<u32, DrmError>)
        requires
            old(self).wf(),
        ensures
            final(self).wf(),
            match r {
                Ok(id) => id == old(self).next_prop_id && final(self).next_prop_id == id + 1,
                Err(e) => e == DrmError::Exhausted && old(self).next_prop_id == u32::MAX,
            },
            final(self).next_prop_id >= old(self).next_prop_id,
            final(self).planes == old(self).planes,
            final(self).crtcs == old(self).crtcs,
            final(self).encoders == old(self).encoders,
            final(self).connectors == old(self).connectors,
            final(self).framebuffers == old(self).framebuffers,
            final(self).objects == old(self).objects,
            final(self).properties == old(self).properties,
            final(self).next_object_id == old(self).next_object_id,
    {
        if self.next_prop_id == u32::MAX {
            return Err(DrmError::Exhausted);
        }
        let id = self.next_prop_id;
        self.next_prop_id = id + 1;
        Ok(id)
    }

    /// Registers a property definition under the next property id.
    pub fn register_property(&mut self, property: DrmProperty) -> (r: Result<u32, DrmError>)
        requires
            old(self).wf(),
        ensures
            final(self).wf(),
            match r {
                Ok(id) => old(self).spec_next_prop_id() < u32::MAX && property_registered(
                    *old(self),
                    *final(self),
                    id,
                ) && final(self).properties_view().last() == (RegisteredProperty { id, property }),
                Err(e) => e == DrmError::Exhausted && old(self).spec_next_prop_id() == u32::MAX
                    && *final(self) == *old(self),
            },
    {
        if self.next_prop_id == u32::MAX {
            return Err(DrmError::Exhausted);
        }
        let id = self.next_prop_id;
        self.next_prop_id = id + 1;
        self.properties.push(RegisteredProperty { id, property });
        proof {
            assert(property_ids(self.properties@) =~= property_ids(old(self).properties@).push(id));
            assert(self.properties@.drop_last() =~= old(self).properties@);
        }
        Ok(id)
    }

    /// The property definition registered under `id`.
    pub fn get_properties(&self, id: &u32) -> (r: Option<&DrmProperty>)
        requires
            self.wf(),
        ensures
            r is None <==> !property_ids(self.properties_view()).contains(*id),
            r matches Some(p) ==> *p == property_at(self.properties@, *id),
    {
        let mut i: usize = 0;
        while i < self.properties.len()
            invariant
                self.wf(),
                i <= self.properties@.len(),
                forall|j: int| 0 <= j < i ==> self.properties@[j].id != *id,
            decreases self.properties@.len() - i,
        {
            if self.properties[i].id == *id {
                proof {
                    assert(0 <= i < self.properties@.len() && self.properties@[i as int].id == *id);
                    let k = choose|k: int| 0 <= k < self.properties@.len() && self.properties@[k].id == *id;
                    assert(property_ids(self.properties@)[k] == property_ids(self.properties@)[i as int]);
                    lemma_unique_pos(property_ids(self.properties@), k, i as int);
                    let ps = self.properties@;
                    let c = choose|c: int| 0 <= c < ps.len() && ps[c].id == *id;
                    assert(property_ids(ps)[c] == property_ids(ps)[i as int]);
                    lemma_unique_pos(property_ids(ps), c, i as int);
                    assert(property_at(ps, *id) == ps[c].property);
                }
                let p = &self.properties[i].property;
                assert(*p == self.properties@[i as int].property);
                return Some(p);
            }
            i = i + 1;
        }
        proof {
            if property_ids(self.properties@).contains(*id) {
                let k = choose|k: int| 0 <= k < property_ids(self.properties@).len()
                    && property_ids(self.properties@)[k] == *id;
                assert(self.properties@[k].id == *id);
            }
        }
        None
    }
}


impl DrmPlane {
    /// Creates a plane of the given role with no framebuffer attached and
    /// registers it.
    pub fn init(res: &mut DrmModeConfig, type_: PlaneType) -> (r: Result<u32, DrmError>)
        requires
            old(res).wf(),
        ensures
            final(res).wf(),
            match r {
                Ok(id) => object_created(*old(res), *final(res), id, KIND_PLANE)
                    && final(res).planes@.drop_last() == old(res).planes@
                    && final(res).planes@.len() == old(res).planes@.len() + 1
                    && final(res).planes@.last().id == id
                    && final(res).planes@.last().type_ == type_
                    && final(res).planes@.last().fb_id == 0
                    && final(res).planes@.last().properties@.dom().len() == 0,
                Err(e) => e == DrmError::Exhausted && old(res).next_object_id == u32::MAX
                    && *final(res) == *old(res),
            },
    {
        let id = res.next_object_id()?;
        let plane = DrmPlane { id, type_, fb_id: 0, properties: IdMap::new() };
        res.planes.push(plane);
        res.objects.insert(id, KIND_PLANE);
        proof {
            assert(res.planes@.drop_last() =~= old(res).planes@);
            lemma_object_added(*old(res), *res, id, KIND_PLANE);
        }
        Ok(id)
    }
}

impl DrmCrtc {
    /// Creates a CRTC over an existing primary plane and optional cursor
    /// plane, with the next CRTC index, and registers it. Its name is the
    /// given one, or "crtc-<id>".
    pub fn init_with_planes(
        res: &mut DrmModeConfig,
        name: Option<&str>,
        primary_plane: u32,
        cursor_plane: Option<u32>,
    ) -> (r: Result<u32, DrmError>)
        requires
            old(res).wf(),
        ensures
            final(res).wf(),
            r is Ok <==> plane_ids(old(res).planes@).contains(primary_plane) && (cursor_plane
                matches Some(c) ==> plane_ids(old(res).planes@).contains(c))
                && old(res).crtc_index < 32 && old(res).next_object_id < u32::MAX,
            match r {
                Ok(id) => object_created(*old(res), *final(res), id, KIND_CRTC)
                    && final(res).crtcs@.drop_last() == old(res).crtcs@
                    && final(res).crtcs@.len() == old(res).crtcs@.len() + 1
                    && final(res).crtc_index == old(res).crtc_index + 1
                    && final(res).crtcs@.last().id == id
                    && final(res).crtcs@.last().index == old(res).crtc_index
                    && final(res).crtcs@.last().primary_plane == primary_plane
                    && final(res).crtcs@.last().cursor_plane == cursor_plane
                    && final(res).crtcs@.last().name@ == (match name {
                        Some(n) => n@,
                        None => default_crtc_name(id),
                    })
                    && final(res).crtcs@.last().gamma_size == 0
                    && !final(res).crtcs@.last().enabled
                    && final(res).crtcs@.last().x == 0 && final(res).crtcs@.last().y == 0
                    && final(res).crtcs@.last().properties@.dom().len() == 0,
                Err(e) => *final(res) == *old(res) && (if !plane_ids(old(res).planes@).contains(
                    primary_plane,
                ) || (cursor_plane matches Some(c) && !plane_ids(old(res).planes@).contains(c)) {
                    e == DrmError::NotFound
                } else {
                    e == DrmError::Exhausted
                }),
            },
    {
        if res.find_plane(primary_plane).is_none() {
            return Err(DrmError::NotFound);
        }
        if let Some(c) = cursor_plane {
            if res.find_plane(c).is_none() {
                return Err(DrmError::NotFound);
            }
        }
        if res.crtc_index == 32 {
            return Err(DrmError::Exhausted);
        }
        let id = res.next_object_id()?;
        proof {
            reveal_strlit("crtc-");
        }
        let name = match name {
            Some(n) => n.to_owned(),
            None => with_decimal("crtc-", id),
        };
        let index = res.crtc_index;
        res.crtc_index = index + 1;
        let crtc = DrmCrtc {
            id,
            name,
            index,
            properties: IdMap::new(),
            gamma_size: 0,
            primary_plane,
            cursor_plane,
            enabled: false,
            x: 0,
            y: 0,
        };
        res.crtcs.push(crtc);
        res.objects.insert(id, KIND_CRTC);
        proof {
            let o = old(res);
            assert forall|i: int, j: int| 0 <= i < j < res.crtcs@.len() implies #[trigger] res.crtcs@[i].index
                != #[trigger] res.crtcs@[j].index by {
                if j < o.crtcs@.len() {
                    assert(res.crtcs@[i] == o.crtcs@[i]);
                    assert(res.crtcs@[j] == o.crtcs@[j]);
                } else {
                    assert(res.crtcs@[i] == o.crtcs@[i]);
                }
            }
            assert forall|i: int| 0 <= i < res.crtcs@.len() implies #[trigger] res.crtcs@[i].index < res.crtc_index by {
                if i < o.crtcs@.len() {
                    assert(res.crtcs@[i] == o.crtcs@[i]);
                }
            }
            assert(res.crtcs@.drop_last() =~= old(res).crtcs@);
            lemma_object_added(*old(res), *res, id, KIND_CRTC);
        }
        Ok(id)
    }

    /// The framebuffer shown through the CRTC's primary plane, 0 for none.
    pub fn fb_id(&self, res: &DrmModeConfig) -> (r: u32)
        requires
            res.wf(),
        ensures
            r == plane_fb_id(*res, self.primary_plane),
    {
        match res.find_plane(self.primary_plane) {
            Some(i) => {
                proof {
                    let k = choose|k: int| 0 <= k < res.planes@.len() && res.planes@[k].id == self.primary_plane;
                    assert(plane_ids(res.planes@)[k] == plane_ids(res.planes@)[i as int]);
                    lemma_unique_pos(plane_ids(res.planes@), k, i as int);
                }
                res.planes[i].fb_id
            },
            None => 0,
        }
    }
}

impl DrmEncoder {
    /// Creates an encoder that the given CRTCs can drive, with the next
    /// encoder index, and registers it. Its CRTC mask has the bit of each
    /// given CRTC's index set.
    pub fn init_with_crtcs(res: &mut DrmModeConfig, type_: EncoderType, crtcs: &[u32]) -> (r: Result<
        u32,
        DrmError,
    >)
        requires
            old(res).wf(),
        ensures
            final(res).wf(),
            r is Ok <==> all_in(crtcs@, crtc_ids(old(res).crtcs@)) && old(res).encoder_index < 32
                && old(res).next_object_id < u32::MAX,
            match r {
                Ok(id) => object_created(*old(res), *final(res), id, KIND_ENCODER)
                    && final(res).encoders@.drop_last() == old(res).encoders@
                    && final(res).encoders@.len() == old(res).encoders@.len() + 1
                    && final(res).encoder_index == old(res).encoder_index + 1
                    && final(res).encoders@.last().id == id
                    && final(res).encoders@.last().type_ == type_
                    && final(res).encoders@.last().index == old(res).encoder_index
                    && final(res).encoders@.last().crtc is None
                    && final(res).encoders@.last().possible_crtcs == index_mask(
                        crtc_indices(old(res).crtcs@, crtcs@),
                    )
                    && final(res).encoders@.last().possible_clones == 0
                    && final(res).encoders@.last().properties@.dom().len() == 0,
                Err(e) => *final(res) == *old(res) && (if !all_in(crtcs@, crtc_ids(old(res).crtcs@)) {
                    e == DrmError::NotFound
                } else {
                    e == DrmError::Exhausted
                }),
            },
    {
        let mut mask: u32 = 0;
        let mut k: usize = 0;
        while k < crtcs.len()
            invariant
                res.wf(),
                k <= crtcs@.len(),
                all_in(crtcs@.subrange(0, k as int), crtc_ids(res.crtcs@)),
                mask == index_mask(crtc_indices(res.crtcs@, crtcs@.subrange(0, k as int))),
            decreases crtcs@.len() - k,
        {
            let ghost before = crtcs@.subrange(0, k as int);
            let id = crtcs[k];
            match res.find_crtc(id) {
                Some(i) => {
                    let index = res.crtcs[i].index;
                    assert(index < 32);
                    mask = mask | (1u32 << (index as u32));
                    proof {
                        let after = crtcs@.subrange(0, k + 1);
                        let c = choose|c: int| 0 <= c < res.crtcs@.len() && res.crtcs@[c].id == id;
                        assert(crtc_ids(res.crtcs@)[c] == crtc_ids(res.crtcs@)[i as int]);
                        lemma_unique_pos(crtc_ids(res.crtcs@), c, i as int);
                        assert(after.drop_last() =~= before);
                        assert(crtc_indices(res.crtcs@, after).drop_last() =~= crtc_indices(res.crtcs@, before));
                        assert(crtc_indices(res.crtcs@, after).last() == index);
                        assert(crtc_ids(res.crtcs@)[i as int] == id);
                        assert forall|j: int| 0 <= j < after.len() implies crtc_ids(res.crtcs@).contains(#[trigger] after[j]) by {
                            if j < before.len() {
                                assert(after[j] == before[j]);
                            }
                        }
                    }
                },
                None => {
                    proof {
                        assert(crtcs@[k as int] == id);
                        assert(!all_in(crtcs@, crtc_ids(res.crtcs@)));
                    }
                    return Err(DrmError::NotFound);
                },
            }
            k = k + 1;
        }
        proof {
            assert(crtcs@.subrange(0, crtcs@.len() as int) =~= crtcs@);
        }
        if res.encoder_index == 32 {
            return Err(DrmError::Exhausted);
        }
        let id = res.next_object_id()?;
        let index = res.encoder_index;
        res.encoder_index = index + 1;
        let encoder = DrmEncoder {
            id,
            type_,
            index,
            crtc: None,
            properties: IdMap::new(),
            possible_crtcs: mask,
            possible_clones: 0,
        };
        res.encoders.push(encoder);
        res.objects.insert(id, KIND_ENCODER);
        proof {
            let o = old(res);
            assert forall|i: int, j: int| 0 <= i < j < res.encoders@.len() implies #[trigger] res.encoders@[i].index
                != #[trigger] res.encoders@[j].index by {
                assert(res.encoders@[i] == o.encoders@[i]);
                if j < o.encoders@.len() {
                    assert(res.encoders@[j] == o.encoders@[j]);
                }
            }
            assert forall|i: int| 0 <= i < res.encoders@.len() implies #[trigger] res.encoders@[i].index < res.encoder_index by {
                if i < o.encoders@.len() {
                    assert(res.encoders@[i] == o.encoders@[i]);
                }
            }
            assert(res.encoders@.drop_last() =~= old(res).encoders@);
            lemma_object_added(*old(res), *res, id, KIND_ENCODER);
        }
        Ok(id)
    }
}

impl DrmConnector {
    /// Creates a connector with the given status, the given modes (each
    /// distinct mode once, in order of first occurrence) and the given
    /// candidate encoders, and registers it.
    pub fn init_with_encoder(
        res: &mut DrmModeConfig,
        status: ConnectorStatus,
        modes: &[DrmModeModeInfo],
        encoders: &[u32],
    ) -> (r: Result<u32, DrmError>)
        requires
            old(res).wf(),
        ensures
            final(res).wf(),
            r is Ok <==> all_in(encoders@, encoder_ids(old(res).encoders@))
                && old(res).next_object_id < u32::MAX,
            match r {
                Ok(id) => object_created(*old(res), *final(res), id, KIND_CONNECTOR)
                    && final(res).connectors@.drop_last() == old(res).connectors@
                    && final(res).connectors@.len() == old(res).connectors@.len() + 1
                    && final(res).connectors@.last().id == id
                    && final(res).connectors@.last().encoder is None
                    && final(res).connectors@.last().modes@ == dedup_modes(modes@)
                    && final(res).connectors@.last().possible_encoders@.dom() == encoders@.to_set()
                    && (forall|e: u32| #[trigger] final(res).connectors@.last().possible_encoders@.dom().contains(e)
                        ==> final(res).connectors@.last().possible_encoders@[e] == encoder_index_of(
                        old(res).encoders@, e) as u64)
                    && final(res).connectors@.last().possible_encoders_mask == index_mask(
                        encoder_indices(old(res).encoders@, encoders@),
                    )
                    && final(res).connectors@.last().type_ == DrmModeConnType::Unknown
                    && final(res).connectors@.last().type_id == 1
                    && final(res).connectors@.last().status == status
                    && final(res).connectors@.last().display_info == (DrmDisplayInfo {
                        mm_width: 384,
                        mm_height: 240,
                        subpixel_order: 0,
                    })
                    && final(res).connectors@.last().properties@.dom().len() == 0,
                Err(e) => *final(res) == *old(res) && (if !all_in(encoders@, encoder_ids(old(res).encoders@)) {
                    e == DrmError::NotFound
                } else {
                    e == DrmError::Exhausted
                }),
            },
    {
        let mut mode_list: Vec<DrmModeModeInfo> = Vec::new();
        let mut m: usize = 0;
        while m < modes.len()
            invariant
                m <= modes@.len(),
                mode_list@ == dedup_modes(modes@.subrange(0, m as int)),
            decreases modes@.len() - m,
        {
            proof {
                assert(modes@.subrange(0, m + 1).drop_last() =~= modes@.subrange(0, m as int));
            }
            if !contains_mode(&mode_list, &modes[m]) {
                mode_list.push(modes[m]);
            }
            m = m + 1;
        }
        proof {
            assert(modes@.subrange(0, modes@.len() as int) =~= modes@);
        }
        let mut possible = IdMap::new();
        let mut mask: u32 = 0;
        let mut k: usize = 0;
        while k < encoders.len()
            invariant
                res.wf(),
                k <= encoders@.len(),
                all_in(encoders@.subrange(0, k as int), encoder_ids(res.encoders@)),
                mask == index_mask(encoder_indices(res.encoders@, encoders@.subrange(0, k as int))),
                possible@.dom() == encoders@.subrange(0, k as int).to_set(),
                possible@.dom().finite(),
                forall|e: u32| #[trigger] possible@.dom().contains(e) ==> possible@[e]
                    == encoder_index_of(res.encoders@, e) as u64,
            decreases encoders@.len() - k,
        {
            let ghost before = encoders@.subrange(0, k as int);
            let id = encoders[k];
            match res.find_encoder(id) {
                Some(i) => {
                    let index = res.encoders[i].index;
                    assert(index < 32);
                    mask = mask | (1u32 << (index as u32));
                    possible.insert(id, index as u64);
                    proof {
                        let after = encoders@.subrange(0, k + 1);
                        let c = choose|c: int| 0 <= c < res.encoders@.len() && res.encoders@[c].id == id;
                        assert(encoder_ids(res.encoders@)[c] == encoder_ids(res.encoders@)[i as int]);
                        lemma_unique_pos(encoder_ids(res.encoders@), c, i as int);
                        assert(after.drop_last() =~= before);
                        assert(after =~= before.push(id));
                        assert(encoder_indices(res.encoders@, after).drop_last() =~= encoder_indices(res.encoders@, before));
                        assert(encoder_indices(res.encoders@, after).last() == index);
                        assert(encoder_ids(res.encoders@)[i as int] == id);
                        assert forall|j: int| 0 <= j < after.len() implies encoder_ids(res.encoders@).contains(#[trigger] after[j]) by {
                            if j < before.len() {
                                assert(after[j] == before[j]);
                            }
                        }
                        assert(after.to_set() =~= before.to_set().insert(id)) by {
                            assert forall|x: u32| after.to_set().contains(x) implies before.to_set().insert(id).contains(x) by {
                                let j = choose|j: int| 0 <= j < after.len() && after[j] == x;
                                if j < before.len() {
                                    assert(before[j] == x);
                                }
                            }
                            assert forall|x: u32| before.to_set().insert(id).contains(x) implies after.to_set().contains(x) by {
                                if x == id {
                                    assert(after[k as int] == x);
                                } else {
                                    let j = choose|j: int| 0 <= j < before.len() && before[j] == x;
                                    assert(after[j] == x);
                                }
                            }
                        }
                    }
                },
                None => {
                    proof {
                        assert(encoders@[k as int] == id);
                        assert(!all_in(encoders@, encoder_ids(res.encoders@)));
                    }
                    return Err(DrmError::NotFound);
                },
            }
            k = k + 1;
        }
        proof {
            assert(encoders@.subrange(0, encoders@.len() as int) =~= encoders@);
        }
        let id = res.next_object_id()?;
        let conn = DrmConnector {
            id,
            encoder: None,
            modes: mode_list,
            properties: IdMap::new(),
            possible_encoders: possible,
            possible_encoders_mask: mask,
            type_: DrmModeConnType::Unknown,
            type_id: 1,
            status,
            display_info: DrmDisplayInfo { mm_width: 384, mm_height: 240, subpixel_order: 0 },
        };
        res.connectors.push(conn);
        res.objects.insert(id, KIND_CONNECTOR);
        proof {
            assert(res.connectors@.drop_last() =~= old(res).connectors@);
            lemma_object_added(*old(res), *res, id, KIND_CONNECTOR);
        }
        Ok(id)
    }
}

impl DrmModeConfig {
    /// Creates a framebuffer over the buffer object with key `gem_obj` and
    /// registers it under the next object id.
    pub fn create_framebuffer(
        &mut self,
        width: u32,
        height: u32,
        pitch: u32,
        bpp: u32,
        gem_obj: u64,
    ) -> (r: Result<u32, DrmError>)
        requires
            old(self).wf(),
        ensures
            final(self).wf(),
            match r {
                Ok(id) => object_created(*old(self), *final(self), id, KIND_FRAMEBUFFER)
                    && final(self).framebuffers@.drop_last() == old(self).framebuffers@
                    && final(self).framebuffers@.len() == old(self).framebuffers@.len() + 1
                    && final(self).framebuffers@.last().id == id
                    && final(self).framebuffers@.last().width == width
                    && final(self).framebuffers@.last().height == height
                    && final(self).framebuffers@.last().pitch == pitch
                    && final(self).framebuffers@.last().bpp == bpp
                    && final(self).framebuffers@.last().gem_obj == gem_obj
                    && final(self).framebuffers@.last().properties@.dom().len() == 0,
                Err(e) => e == DrmError::Exhausted && old(self).next_object_id == u32::MAX
                    && *final(self) == *old(self),
            },
    {
        let id = self.next_object_id()?;
        let fb = DrmFramebuffer { id, width, height, pitch, bpp, gem_obj, properties: IdMap::new() };
        self.framebuffers.push(fb);
        self.objects.insert(id, KIND_FRAMEBUFFER);
        proof {
            assert(self.framebuffers@.drop_last() =~= old(self).framebuffers@);
            lemma_object_added(*old(self), *self, id, KIND_FRAMEBUFFER);
        }
        Ok(id)
    }
}

/// A borrowed mode-setting object of any kind.
pub enum DrmModeObjectRef<'a> {
    Plane(&'a DrmPlane),
    Crtc(&'a DrmCrtc),
    Encoder(&'a DrmEncoder),
    Connector(&'a DrmConnector),
    Framebuffer(&'a DrmFramebuffer),
}

impl<'a> DrmModeObject for DrmModeObjectRef<'a> {
    open spec fn spec_id(&self) -> u32 {
        match *self {
            DrmModeObjectRef::Plane(o) => o.id,
            DrmModeObjectRef::Crtc(o) => o.id,
            DrmModeObjectRef::Encoder(o) => o.id,
            DrmModeObjectRef::Connector(o) => o.id,
            DrmModeObjectRef::Framebuffer(o) => o.id,
        }
    }

    open spec fn spec_properties(&self) -> Map<u32, u64> {
        match *self {
            DrmModeObjectRef::Plane(o) => o.properties@,
            DrmModeObjectRef::Crtc(o) => o.properties@,
            DrmModeObjectRef::Encoder(o) => o.properties@,
            DrmModeObjectRef::Connector(o) => o.properties@,
            DrmModeObjectRef::Framebuffer(o) => o.properties@,
        }
    }

    fn id(&self) -> (r: u32) {
        match self {
            DrmModeObjectRef::Plane(o) => o.id,
            DrmModeObjectRef::Crtc(o) => o.id,
            DrmModeObjectRef::Encoder(o) => o.id,
            DrmModeObjectRef::Connector(o) => o.id,
            DrmModeObjectRef::Framebuffer(o) => o.id,
        }
    }

    fn properties(&self) -> (r: &IdMap) {
        match self {
            DrmModeObjectRef::Plane(o) => &o.properties,
            DrmModeObjectRef::Crtc(o) => &o.properties,
            DrmModeObjectRef::Encoder(o) => &o.properties,
            DrmModeObjectRef::Connector(o) => &o.properties,
            DrmModeObjectRef::Framebuffer(o) => &o.properties,
        }
    }
}

/// `o` is an object of the registry, in the table of its kind.
pub open spec fn object_in(cfg: DrmModeConfig, o: DrmModeObjectRef) -> bool {
    match o {
        DrmModeObjectRef::Plane(p) => cfg.planes@.contains(*p),
        DrmModeObjectRef::Crtc(p) => cfg.crtcs@.contains(*p),
        DrmModeObjectRef::Encoder(p) => cfg.encoders@.contains(*p),
        DrmModeObjectRef::Connector(p) => cfg.connectors@.contains(*p),
        DrmModeObjectRef::Framebuffer(p) => cfg.framebuffers@.contains(*p),
    }
}

impl DrmModeConfig {
    /// The object with id `id`, whatever its kind.
    pub fn get_object(&self, id: &u32) -> (r: Option<DrmModeObjectRef<'_>>)
        requires
            self.wf(),
        ensures
            r is None <==> !self.objects@.dom().contains(*id),
            r matches Some(o) ==> o.spec_id() == *id && object_in(*self, o),
    {
        match self.objects.get(*id) {
            None => None,
            Some(kind) => {
                if kind == KIND_PLANE {
                    match self.find_plane(*id) {
                        Some(i) => Some(DrmModeObjectRef::Plane(&self.planes[i])),
                        None => None,
                    }
                } else if kind == KIND_CRTC {
                    match self.find_crtc(*id) {
                        Some(i) => Some(DrmModeObjectRef::Crtc(&self.crtcs[i])),
                        None => None,
                    }
                } else if kind == KIND_ENCODER {
                    match self.find_encoder(*id) {
                        Some(i) => Some(DrmModeObjectRef::Encoder(&self.encoders[i])),
                        None => None,
                    }
                } else if kind == KIND_CONNECTOR {
                    match self.find_connector(*id) {
                        Some(i) => Some(DrmModeObjectRef::Connector(&self.connectors[i])),
                        None => None,
                    }
                } else {
                    match self.find_framebuffer(*id) {
                        Some(i) => Some(DrmModeObjectRef::Framebuffer(&self.framebuffers[i])),
                        None => None,
                    }
                }
            },
        }
    }

    /// Removes the framebuffer with id `fb_id` from the registry. Its buffer
    /// object is not released.
    pub fn remove_framebuffer(&mut self, fb_id: &u32) -> (r: Option<DrmFramebuffer>)
        requires
            old(self).wf(),
        ensures
            final(self).wf(),
            r is None <==> !framebuffer_ids(old(self).framebuffers@).contains(*fb_id),
            !framebuffer_ids(final(self).framebuffers@).contains(*fb_id),
            match r {
                Some(fb) => fb.id == *fb_id && exists|i: int|
                    0 <= i < old(self).framebuffers@.len() && old(self).framebuffers@[i] == fb
                        && final(self).framebuffers@ == old(self).framebuffers@.remove(i),
                None => final(self).framebuffers@ == old(self).framebuffers@
                    && final(self).objects@ == old(self).objects@,
            },
            r is Some ==> final(self).objects@ == old(self).objects@.remove(*fb_id),
            final(self).next_object_id == old(self).next_object_id,
            unchanged_but(*old(self), *final(self), KIND_FRAMEBUFFER),
    {
        match self.find_framebuffer(*fb_id) {
            None => {
                None
            },
            Some(i) => {
                let fb = self.framebuffers.remove(i);
                self.objects.remove(*fb_id);
                proof {
                    let o = old(self);
                    let oid = framebuffer_ids(o.framebuffers@);
                    let nid = framebuffer_ids(self.framebuffers@);
                    assert(self.framebuffers@ =~= o.framebuffers@.remove(i as int));
                    assert(nid =~= oid.remove(i as int));
                    assert(o.objects@[*fb_id] == KIND_FRAMEBUFFER);
                    assert forall|j: int| 0 <= j < self.framebuffers@.len() implies #[trigger] self.objects@.dom().contains(
                        self.framebuffers@[j].id) && self.objects@[self.framebuffers@[j].id] == KIND_FRAMEBUFFER by {
                        let oj = if j < i { j } else { j + 1 };
                        assert(self.framebuffers@[j] == o.framebuffers@[oj]);
                        assert(oid[oj] != oid[i as int]);
                        assert(o.objects@.dom().contains(o.framebuffers@[oj].id));
                    }
                    assert forall|j: int| 0 <= j < self.planes@.len() implies #[trigger] self.objects@.dom().contains(
                        self.planes@[j].id) && self.objects@[self.planes@[j].id] == KIND_PLANE by {
                        assert(o.objects@.dom().contains(o.planes@[j].id));
                    }
                    assert forall|j: int| 0 <= j < self.crtcs@.len() implies #[trigger] self.objects@.dom().contains(
                        self.crtcs@[j].id) && self.objects@[self.crtcs@[j].id] == KIND_CRTC by {
                        assert(o.objects@.dom().contains(o.crtcs@[j].id));
                    }
                    assert forall|j: int| 0 <= j < self.encoders@.len() implies #[trigger] self.objects@.dom().contains(
                        self.encoders@[j].id) && self.objects@[self.encoders@[j].id] == KIND_ENCODER by {
                        assert(o.objects@.dom().contains(o.encoders@[j].id));
                    }
                    assert forall|j: int| 0 <= j < self.connectors@.len() implies #[trigger] self.objects@.dom().contains(
                        self.connectors@[j].id) && self.objects@[self.connectors@[j].id] == KIND_CONNECTOR by {
                        assert(o.objects@.dom().contains(o.connectors@[j].id));
                    }
                    assert forall|x: u32| #[trigger] self.objects@.dom().contains(x) implies x < self.next_object_id && {
                        ||| self.objects@[x] == KIND_PLANE && plane_ids(self.planes@).contains(x)
                        ||| self.objects@[x] == KIND_CRTC && crtc_ids(self.crtcs@).contains(x)
                        ||| self.objects@[x] == KIND_ENCODER && encoder_ids(self.encoders@).contains(x)
                        ||| self.objects@[x] == KIND_CONNECTOR && connector_ids(self.connectors@).contains(x)
                        ||| self.objects@[x] == KIND_FRAMEBUFFER && framebuffer_ids(self.framebuffers@).contains(x)
                    } by {
                        assert(o.objects@.dom().contains(x));
                        if o.objects@[x] == KIND_FRAMEBUFFER {
                            let k = choose|k: int| 0 <= k < oid.len() && oid[k] == x;
                            assert(k != i);
                            let nk = if k < i { k } else { k - 1 };
                            assert(nid[nk] == x);
                        }
                    }
                    assert(nid.no_duplicates()) by {
                        assert forall|a: int, b: int| 0 <= a < nid.len() && 0 <= b < nid.len() && a != b implies nid[a] != nid[b] by {
                            let oa = if a < i { a } else { a + 1 };
                            let ob = if b < i { b } else { b + 1 };
                            assert(nid[a] == oid[oa]);
                            assert(nid[b] == oid[ob]);
                        }
                    }
                    assert(o.framebuffers@[i as int] == fb);
                    if nid.contains(*fb_id) {
                        let a = choose|a: int| 0 <= a < nid.len() && nid[a] == *fb_id;
                        let oa = if a < i { a } else { a + 1 };
                        assert(nid[a] == oid[oa]);
                        assert(oid[i as int] == *fb_id);
                    }
                }
                Some(fb)
            },
        }
    }
}
} // verus!
