use vstd::prelude::*;
use crate::device::DrmDevice;
use crate::file::{
    apply_client_cap, connector_answer, modeset, object_properties, object_props_answer,
    plane_res_answer, resources_answer, ClientCapFlags, ConnectorReply, ObjectPropsReply,
    PlaneResReply, ResourcesReply,
};
use crate::error::DrmError;
use crate::ioctl_defs::{
    DrmModeGetConnector, DrmModeGetPlaneRes, DrmModeGetResources, DrmModeObjectGetProps,
};
use crate::file::{kind_enums, kind_values};
use crate::property::{kind_count_enum_blobs, kind_count_values, PropertyKind};
use crate::mode_config::{
    connector_at, connector_ids, object_created, property_registered, DrmModeConfig,
};

verus! {

/// One step of a registry's history: an object of kind `kind` created under
/// `id`, or (when `is_property`) a property definition registered under `id`.
pub open spec fn creation_step(a: DrmModeConfig, b: DrmModeConfig, id: u32, is_property: bool, kind: u64) -> bool {
    if is_property {
        property_registered(a, b, id)
    } else {
        object_created(a, b, id, kind)
    }
}

/// A history of creations: `states[k + 1]` follows `states[k]` by step `k`.
pub open spec fn creation_history(
    states: Seq<DrmModeConfig>,
    ids: Seq<u32>,
    is_property: Seq<bool>,
    kinds: Seq<u64>,
) -> bool {
    &&& states.len() == ids.len() + 1
    &&& is_property.len() == ids.len()
    &&& kinds.len() == ids.len()
    &&& forall|k: int| 0 <= k < ids.len() ==> #[trigger] creation_step(states[k], states[k + 1], ids[k], is_property[k], kinds[k])
}

proof fn lemma_counters_grow(
    states: Seq<DrmModeConfig>,
    ids: Seq<u32>,
    is_property: Seq<bool>,
    kinds: Seq<u64>,
    k: int,
    m: int,
)
    requires
        creation_history(states, ids, is_property, kinds),
        0 <= k <= m < states.len(),
    ensures
        states[k].next_object_id <= states[m].next_object_id,
        states[k].next_prop_id <= states[m].next_prop_id,
    decreases m - k,
{
    if k < m {
        lemma_counters_grow(states, ids, is_property, kinds, k + 1, m);
        assert(creation_step(states[k], states[k + 1], ids[k], is_property[k], kinds[k]));
    }
}

/// Ids are handed out in increasing order: over any mix of object creations
/// and property registrations on one registry, the object ids grow strictly
/// and never repeat, the property ids grow strictly in their own space, and
/// from a valid registry every property id is above zero.
pub proof fn lemma_ids_increase(
    states: Seq<DrmModeConfig>,
    ids: Seq<u32>,
    is_property: Seq<bool>,
    kinds: Seq<u64>,
)
    requires
        creation_history(states, ids, is_property, kinds),
    ensures
        forall|a: int, b: int|
            0 <= a < b < ids.len() && !is_property[a] && !is_property[b] ==> #[trigger] ids[a]
                < #[trigger] ids[b],
        forall|a: int, b: int|
            0 <= a < b < ids.len() && is_property[a] && is_property[b] ==> #[trigger] ids[a]
                < #[trigger] ids[b],
        states[0].wf() ==> forall|a: int| 0 <= a < ids.len() && is_property[a] ==> #[trigger] ids[a] >= 1,
{
    assert forall|a: int, b: int|
        0 <= a < b < ids.len() && !is_property[a] && !is_property[b] implies #[trigger] ids[a]
            < #[trigger] ids[b] by {
        assert(creation_step(states[a], states[a + 1], ids[a], is_property[a], kinds[a]));
        assert(creation_step(states[b], states[b + 1], ids[b], is_property[b], kinds[b]));
        lemma_counters_grow(states, ids, is_property, kinds, a + 1, b);
    }
    assert forall|a: int, b: int|
        0 <= a < b < ids.len() && is_property[a] && is_property[b] implies #[trigger] ids[a]
            < #[trigger] ids[b] by {
        assert(creation_step(states[a], states[a + 1], ids[a], is_property[a], kinds[a]));
        assert(creation_step(states[b], states[b + 1], ids[b], is_property[b], kinds[b]));
        lemma_counters_grow(states, ids, is_property, kinds, a + 1, b);
    }
    if states[0].wf() {
        assert forall|a: int| 0 <= a < ids.len() && is_property[a] implies #[trigger] ids[a] >= 1 by {
            assert(creation_step(states[a], states[a + 1], ids[a], is_property[a], kinds[a]));
            lemma_counters_grow(states, ids, is_property, kinds, 0, a);
        }
    }
}

/// A valid registry holds fewer than 2^32 objects.
proof fn lemma_tables_fit(cfg: DrmModeConfig)
    requires
        cfg.wf(),
    ensures
        cfg.planes@.len() <= u32::MAX,
        cfg.crtcs@.len() <= u32::MAX,
        cfg.encoders@.len() <= u32::MAX,
        cfg.connectors@.len() <= u32::MAX,
        cfg.framebuffers@.len() <= u32::MAX,
{
}

/// The counts of a resource probe equal the lengths of the id arrays that a
/// fill with at least those capacities writes, on the same registry.
pub proof fn lemma_resources_probe_matches_fill(
    dev: DrmDevice,
    probe: DrmModeGetResources,
    fill: DrmModeGetResources,
    probe_r: Result<ResourcesReply, DrmError>,
    fill_r: Result<ResourcesReply, DrmError>,
)
    requires
        dev.wf(),
        modeset(dev),
        probe.fb_id_ptr == 0 && probe.crtc_id_ptr == 0 && probe.connector_id_ptr == 0 && probe.encoder_id_ptr == 0,
        !(fill.fb_id_ptr == 0 && fill.crtc_id_ptr == 0 && fill.connector_id_ptr == 0 && fill.encoder_id_ptr == 0),
        resources_answer(dev, probe, probe_r),
        resources_answer(dev, fill, fill_r),
        probe_r matches Ok(ResourcesReply::Counts(c)) && fill.count_fbs >= c.count_fbs && fill.count_crtcs
            >= c.count_crtcs && fill.count_connectors >= c.count_connectors && fill.count_encoders >= c.count_encoders,
    ensures
        probe_r matches Ok(ResourcesReply::Counts(c)) && fill_r matches Ok(ResourcesReply::Ids { fbs, crtcs, connectors, encoders })
            && c.count_fbs == fbs@.len() && c.count_crtcs == crtcs@.len() && c.count_connectors
            == connectors@.len() && c.count_encoders == encoders@.len(),
{
    lemma_tables_fit(dev.mode_config);
}

/// The plane count of a probe equals the number of plane ids a fill with at
/// least that capacity writes.
pub proof fn lemma_planes_probe_matches_fill(
    dev: DrmDevice,
    probe: DrmModeGetPlaneRes,
    fill: DrmModeGetPlaneRes,
    probe_r: Result<PlaneResReply, DrmError>,
    fill_r: Result<PlaneResReply, DrmError>,
)
    requires
        dev.wf(),
        modeset(dev),
        probe.plane_id_ptr == 0,
        fill.plane_id_ptr != 0,
        plane_res_answer(dev, probe, probe_r),
        plane_res_answer(dev, fill, fill_r),
        probe_r matches Ok(PlaneResReply::Count(c)) && fill.count_planes >= c.count_planes,
    ensures
        probe_r matches Ok(PlaneResReply::Count(c)) && fill_r matches Ok(PlaneResReply::Ids(ids)) && c.count_planes
            == ids@.len(),
{
    lemma_tables_fit(dev.mode_config);
}

/// The counts of a connector probe equal the numbers of modes, encoder ids
/// and property pairs that a fill with at least those capacities writes.
pub proof fn lemma_connector_probe_matches_fill(
    dev: DrmDevice,
    probe: DrmModeGetConnector,
    fill: DrmModeGetConnector,
    probe_r: Result<ConnectorReply, DrmError>,
    fill_r: Result<ConnectorReply, DrmError>,
)
    requires
        dev.wf(),
        modeset(dev),
        probe.connector_id == fill.connector_id,
        connector_ids(dev.mode_config.connectors@).contains(probe.connector_id),
        connector_at(dev.mode_config.connectors@, probe.connector_id).modes@.len() <= u32::MAX,
        connector_at(dev.mode_config.connectors@, probe.connector_id).properties@.dom().len() <= u32::MAX,
        connector_at(dev.mode_config.connectors@, probe.connector_id).possible_encoders@.dom().len() <= u32::MAX,
        probe.encoders_ptr == 0 && probe.modes_ptr == 0 && probe.props_ptr == 0 && probe.prop_values_ptr == 0,
        !(fill.encoders_ptr == 0 && fill.modes_ptr == 0 && fill.props_ptr == 0 && fill.prop_values_ptr == 0),
        connector_answer(dev, probe, probe_r),
        connector_answer(dev, fill, fill_r),
        probe_r matches Ok(ConnectorReply::Info(c)) && fill.count_modes >= c.count_modes && fill.count_props
            >= c.count_props && fill.count_encoders >= c.count_encoders,
    ensures
        probe_r matches Ok(ConnectorReply::Info(c)) && fill_r matches Ok(ConnectorReply::Arrays { modes, encoders, props })
            && c.count_modes == modes@.len() && c.count_props == props@.len() && c.count_encoders
            == encoders@.len(),
{
    let c = connector_at(dev.mode_config.connectors@, probe.connector_id);
    if let Ok(ConnectorReply::Arrays { modes, encoders, props }) = fill_r {
        encoders@.unique_seq_to_set();
    }
}

/// The count of an object property probe equals the number of pairs that a
/// fill with at least that capacity writes.
pub proof fn lemma_object_props_probe_matches_fill(
    dev: DrmDevice,
    probe: DrmModeObjectGetProps,
    fill: DrmModeObjectGetProps,
    probe_r: Result<ObjectPropsReply, DrmError>,
    fill_r: Result<ObjectPropsReply, DrmError>,
)
    requires
        dev.wf(),
        modeset(dev),
        probe.obj_id == fill.obj_id,
        dev.mode_config.objects@.dom().contains(probe.obj_id),
        object_properties(dev.mode_config, probe.obj_id).dom().len() <= u32::MAX,
        probe.props_ptr == 0 && probe.prop_values_ptr == 0,
        !(fill.props_ptr == 0 && fill.prop_values_ptr == 0),
        object_props_answer(dev, probe, probe_r),
        object_props_answer(dev, fill, fill_r),
        probe_r matches Ok(ObjectPropsReply::Count(c)) && fill.count_props >= c.count_props,
    ensures
        probe_r matches Ok(ObjectPropsReply::Count(c)) && fill_r matches Ok(ObjectPropsReply::Pairs(pairs))
            && c.count_props == pairs@.len(),
{
}

/// The value count a property probe reports equals the number of values a
/// fill writes; for enums and bitmasks the enum-record count equals the
/// number of records written too.
pub proof fn lemma_property_counts_match(k: PropertyKind)
    requires
        k matches PropertyKind::Enum(e) ==> e@.len() <= u32::MAX,
        k matches PropertyKind::Bitmask(e) ==> e@.len() <= u32::MAX,
    ensures
        kind_count_values(k) == kind_values(k).len(),
        (k is Enum || k is Bitmask) ==> kind_count_enum_blobs(k) == kind_enums(k).len(),
{
}

/// Declaring the atomic capability with value 2 sets atomic, universal
/// planes and aspect ratio; a value above 2 is refused as an invalid
/// argument (and the session's flags stay as they were).
pub proof fn lemma_atomic_cascade(caps: ClientCapFlags, hotspot: bool, value: u64)
    ensures
        value == 2 ==> (apply_client_cap(caps, hotspot, 3, value) matches Ok(c) && c.atomic
            && c.universal_planes && c.aspect_ratio_allowed),
        value == 1 ==> (apply_client_cap(caps, hotspot, 3, value) matches Ok(c) && c.atomic
            && c.universal_planes),
        value > 2 ==> apply_client_cap(caps, hotspot, 3, value) == Err::<ClientCapFlags, DrmError>(
            DrmError::InvalidArgument,
        ),
{
}

} // verus!
