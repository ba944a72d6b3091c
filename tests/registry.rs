use drm_core::error::DrmError;
use drm_core::mode::{fake_modeinfo, mode_eq};
use drm_core::mode_config::DrmModeConfig;
use drm_core::objects::{
    ConnectorStatus, DrmConnector, DrmCrtc, DrmEncoder, DrmModeConnType, DrmModeObject, DrmPlane,
    EncoderType, PlaneType,
};
use drm_core::property::{str_to_u8_32, DrmProperty, PropertyEnum, PropertyFlags, PropertyKind};
use drm_core::simpledrm::SimpleDrmDevice;

fn name32(s: &str) -> [u8; 32] {
    let mut b = [0u8; 32];
    for (i, c) in s.bytes().enumerate().take(32) {
        b[i] = c;
    }
    b
}

#[test]
fn object_ids_increase_across_kinds() {
    let mut res = DrmModeConfig::default();
    let p = DrmPlane::init(&mut res, PlaneType::Primary).unwrap();
    let c = DrmCrtc::init_with_planes(&mut res, None, p, None).unwrap();
    let e = DrmEncoder::init_with_crtcs(&mut res, EncoderType::VIRTUAL, &[c]).unwrap();
    let k = DrmConnector::init_with_encoder(&mut res, ConnectorStatus::Connected, &[], &[e]).unwrap();
    let f1 = res.create_framebuffer(10, 10, 40, 32, 0).unwrap();
    let f2 = res.create_framebuffer(10, 10, 40, 32, 0).unwrap();
    assert_eq!(vec![p, c, e, k, f1, f2], vec![0, 1, 2, 3, 4, 5]);
}

#[test]
fn property_ids_start_above_zero_and_increase() {
    let mut res = DrmModeConfig::default();
    let a = res.register_property(DrmProperty::create_bool("a", PropertyFlags::from_bits(0))).unwrap();
    let b = res.register_property(DrmProperty::create("b", PropertyFlags::from_bits(0))).unwrap();
    assert_eq!(a, 1);
    assert_eq!(b, 2);
    // object ids are a separate space
    let p = DrmPlane::init(&mut res, PlaneType::Overlay).unwrap();
    assert_eq!(p, 0);
}

#[test]
fn many_creations_give_distinct_ids() {
    let mut res = DrmModeConfig::default();
    let mut ids = Vec::new();
    for _ in 0..64 {
        ids.push(res.create_framebuffer(1, 1, 4, 32, 0).unwrap());
    }
    let mut sorted = ids.clone();
    sorted.sort();
    sorted.dedup();
    assert_eq!(sorted.len(), 64);
}

#[test]
fn simple_device_topology() {
    let d = SimpleDrmDevice::new(0).unwrap().device;
    let res = d.resources();
    assert_eq!(res.count_planes(), 1);
    assert_eq!(res.count_crtcs(), 1);
    assert_eq!(res.count_encoders(), 1);
    assert_eq!(res.count_connectors(), 1);
    assert_eq!(res.count_framebuffers(), 0);
    assert_eq!(res.planes_id(), vec![0]);
    assert_eq!(res.crtcs_id(), vec![1]);
    assert_eq!(res.encoders_id(), vec![2]);
    assert_eq!(res.connectors_id(), vec![3]);
    let crtc = res.get_crtc(&1).unwrap();
    assert_eq!(crtc.name, "crtc-1");
    assert_eq!(crtc.fb_id(res), 0);
    assert_eq!(crtc.xy(), (0, 0));
    let enc = res.get_encoder(&2).unwrap();
    assert_eq!(enc.possible_crtcs(), 1);
    assert_eq!(enc.possible_clones(), 0);
    assert_eq!(enc.type_().code(), 5);
    let conn = res.get_connector(&3).unwrap();
    assert_eq!(conn.count_modes(), 1);
    assert_eq!(conn.count_encoders(), 1);
    assert_eq!(conn.possible_encoders_id(), vec![2]);
    assert_eq!(conn.mm_width(), 384);
    assert_eq!(conn.mm_height(), 240);
    assert_eq!(conn.subpixel_order(), 0);
    assert_eq!(conn.type_id_(), 1);
    assert_eq!(conn.type_().code(), 0);
    assert_eq!(conn.status().code(), 1);
    assert_eq!(conn.possible_encoders_mask, 1);
}

#[test]
fn crtc_given_name_is_kept() {
    let mut res = DrmModeConfig::default();
    let p = DrmPlane::init(&mut res, PlaneType::Primary).unwrap();
    let c = DrmCrtc::init_with_planes(&mut res, Some("main"), p, None).unwrap();
    assert_eq!(res.get_crtc(&c).unwrap().name, "main");
}

#[test]
fn crtc_needs_existing_planes() {
    let mut res = DrmModeConfig::default();
    assert_eq!(DrmCrtc::init_with_planes(&mut res, None, 7, None), Err(DrmError::NotFound));
    let p = DrmPlane::init(&mut res, PlaneType::Primary).unwrap();
    assert_eq!(DrmCrtc::init_with_planes(&mut res, None, p, Some(9)), Err(DrmError::NotFound));
    assert_eq!(res.count_crtcs(), 0);
}

#[test]
fn crtc_indices_run_out_after_32() {
    let mut res = DrmModeConfig::default();
    let p = DrmPlane::init(&mut res, PlaneType::Primary).unwrap();
    for i in 0..32u8 {
        let c = DrmCrtc::init_with_planes(&mut res, None, p, None).unwrap();
        assert_eq!(res.get_crtc(&c).unwrap().index(), i);
    }
    assert_eq!(DrmCrtc::init_with_planes(&mut res, None, p, None), Err(DrmError::Exhausted));
}

#[test]
fn encoder_mask_has_a_bit_per_crtc_index() {
    let mut res = DrmModeConfig::default();
    let p = DrmPlane::init(&mut res, PlaneType::Primary).unwrap();
    let c0 = DrmCrtc::init_with_planes(&mut res, None, p, None).unwrap();
    let _c1 = DrmCrtc::init_with_planes(&mut res, None, p, None).unwrap();
    let c2 = DrmCrtc::init_with_planes(&mut res, None, p, None).unwrap();
    let e = DrmEncoder::init_with_crtcs(&mut res, EncoderType::TMDS, &[c0, c2]).unwrap();
    let enc = res.get_encoder(&e).unwrap();
    assert_eq!(enc.possible_crtcs(), 0b101);
    assert_eq!(enc.index(), 0);
    assert_eq!(DrmEncoder::init_with_crtcs(&mut res, EncoderType::TMDS, &[99]), Err(DrmError::NotFound));
}

#[test]
fn connector_modes_are_deduplicated() {
    let mut res = DrmModeConfig::default();
    let m = fake_modeinfo();
    let mut other = fake_modeinfo();
    other.vrefresh = 75;
    let k = DrmConnector::init_with_encoder(&mut res, ConnectorStatus::Disconnected, &[m, m, other, m], &[]).unwrap();
    let conn = res.get_connector(&k).unwrap();
    assert_eq!(conn.count_modes(), 2);
    assert!(mode_eq(&conn.modes()[0], &m));
    assert!(mode_eq(&conn.modes()[1], &other));
    assert_eq!(conn.count_encoders(), 0);
    assert_eq!(conn.type_(), DrmModeConnType::Unknown);
    assert_eq!(DrmConnector::init_with_encoder(&mut res, ConnectorStatus::Connected, &[], &[42]), Err(DrmError::NotFound));
}

#[test]
fn fake_mode_is_1280x800_at_60() {
    let m = fake_modeinfo();
    assert_eq!(m.clock, 65000);
    assert_eq!((m.hdisplay, m.hsync_start, m.hsync_end, m.htotal), (1280, 1048, 1184, 1344));
    assert_eq!((m.vdisplay, m.vsync_start, m.vsync_end, m.vtotal), (800, 771, 777, 806));
    assert_eq!(m.vrefresh, 60);
    assert_eq!(m.flags, 0x5);
    assert_eq!(m.type_, 0x40);
    assert_eq!(m.name, name32("1280x800"));
}

#[test]
fn framebuffer_lookup_and_removal() {
    let mut res = DrmModeConfig::default();
    let f = res.create_framebuffer(64, 32, 256, 32, 7).unwrap();
    let fb = res.lookup_framebuffer(&f).unwrap();
    assert_eq!((fb.width, fb.height, fb.pitch, fb.bpp, fb.gem_obj), (64, 32, 256, 32, 7));
    assert!(res.get_object(&f).is_some());
    let removed = res.remove_framebuffer(&f).unwrap();
    assert_eq!(removed.id, f);
    assert!(res.lookup_framebuffer(&f).is_none());
    assert!(res.get_object(&f).is_none());
    assert!(res.remove_framebuffer(&f).is_none());
    assert_eq!(res.framebuffer_id(), Vec::<u32>::new());
}

#[test]
fn get_object_finds_every_kind() {
    let d = SimpleDrmDevice::new(3).unwrap().device;
    let res = d.resources();
    for id in 0..4u32 {
        let o = res.get_object(&id).unwrap();
        assert_eq!(o.id(), id);
        assert_eq!(o.count_props(), 0);
    }
    assert!(res.get_object(&4).is_none());
}

#[test]
fn attached_property_values_are_listed() {
    let mut res = DrmModeConfig::default();
    let k = DrmConnector::init_with_encoder(&mut res, ConnectorStatus::Connected, &[], &[]).unwrap();
    res.connectors[0].attach_property(5, 50);
    res.connectors[0].attach_property(6, 60);
    res.connectors[0].attach_property(5, 55);
    let o = res.get_object(&k).unwrap();
    assert_eq!(o.count_props(), 2);
    let mut pairs = o.get_properties();
    pairs.sort();
    assert_eq!(pairs, vec![(5, 55), (6, 60)]);
}

#[test]
fn property_constructors() {
    let r = DrmProperty::create_range("brightness", PropertyFlags::from_bits(0x4), 0, 100);
    assert_eq!(r.flags(), 0x4 | 0x2);
    assert_eq!(r.count_values(), 2);
    assert_eq!(r.count_enum_blobs(), 0);
    assert_eq!(r.name(), name32("brightness"));
    let b = DrmProperty::create("blob", PropertyFlags::from_bits(0x10));
    assert_eq!(b.count_values(), 1);
    assert_eq!(b.count_enum_blobs(), 1);
    assert!(matches!(b.kind(), PropertyKind::Blob(1)));
    let e = DrmProperty::create_enum("dpms", PropertyFlags::from_bits(0), &[(0, "On"), (1, "Standby"), (3, "Off")]);
    assert_eq!(e.flags(), 0x8);
    assert_eq!(e.count_values(), 3);
    assert_eq!(e.count_enum_blobs(), 3);
    let t = DrmProperty::create_bool("active", PropertyFlags::from_bits(0));
    assert!(matches!(t.kind(), PropertyKind::Range { min: 0, max: 1 }));
}

#[test]
fn names_are_cut_at_32_bytes() {
    let long = "abcdefghijklmnopqrstuvwxyz0123456789";
    let b = str_to_u8_32(long);
    assert_eq!(&b[..], &long.as_bytes()[..32]);
    assert_eq!(str_to_u8_32(""), [0u8; 32]);
    let e = PropertyEnum::new(9, "on");
    assert_eq!(e.value, 9);
    assert_eq!(e.name, name32("on"));
}

#[test]
fn init_standard_properties_changes_nothing() {
    let mut res = DrmModeConfig::default();
    res.init_standard_properties();
    assert_eq!(res.next_prop_id, 1);
    assert_eq!(res.next_object_id, 0);
    assert_eq!(res.preferred_depth, 16);
    assert_eq!(res.max_width, 8192);
}

#[test]
fn id_counters_hand_out_and_move_on() {
    let mut res = DrmModeConfig::default();
    assert_eq!(res.next_object_id(), Ok(0));
    assert_eq!(res.next_object_id(), Ok(1));
    assert_eq!(res.next_prop_id(), Ok(1));
    assert_eq!(DrmPlane::init(&mut res, PlaneType::Cursor), Ok(2));
    res.next_object_id = u32::MAX;
    assert_eq!(res.next_object_id(), Err(DrmError::Exhausted));
    assert_eq!(res.create_framebuffer(1, 1, 4, 32, 0), Err(DrmError::Exhausted));
}

#[test]
fn framebuffer_gets_its_id_later() {
    let mut fb = drm_core::objects::DrmFramebuffer::new(3, 4, 12, 32, 9);
    assert_eq!(fb.id, 0);
    fb.init_object(17);
    assert_eq!((fb.id, fb.width, fb.height, fb.pitch, fb.bpp, fb.gem_obj), (17, 3, 4, 12, 32, 9));
}
