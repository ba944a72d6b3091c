use drm_core::device::{DrmDevice, DrmDriverOps, DrmMinor, DrmMinorType, DumbCreateProvider};
use drm_core::error::DrmError;
use drm_core::features::{DrmDriverFeatures, FEATURE_ATOMIC, FEATURE_GEM, FEATURE_MODESET, FEATURE_RENDER};
use drm_core::file::{
    ConnectorReply, DrmFile, ObjectPropsReply, PlaneResReply, PropertyReply, ResourcesReply,
    VersionReply,
};
use drm_core::ioctl_defs::{
    DrmCommand,
    DrmGetCap, DrmModeCreateDumb, DrmModeCursor, DrmModeDestroyDumb, DrmModeFBCmd,
    DrmModeGetConnector, DrmModeGetEncoder, DrmModeGetPlane, DrmModeGetPlaneRes,
    DrmModeGetProperty, DrmModeGetResources, DrmModeMapDumb, DrmModeObjectGetProps,
    DrmSetClientCap, DrmVersion,
};
use drm_core::mode_config::DrmModeConfig;
use drm_core::property::{DrmProperty, PropertyFlags};
use drm_core::simpledrm::SimpleDrmDevice;

fn simple() -> DrmDevice {
    SimpleDrmDevice::new(0).unwrap().device
}

fn no_modeset() -> DrmDevice {
    DrmDevice::new(
        0,
        "plain",
        "a device without mode setting",
        "2025-01-01",
        DrmDriverFeatures::from_bits(FEATURE_GEM),
        DrmDriverOps { dumb_create: Some(DumbCreateProvider::Memfd) },
        DrmModeConfig::default(),
    )
}

fn name32(s: &str) -> [u8; 32] {
    let mut b = [0u8; 32];
    for (i, c) in s.bytes().enumerate().take(32) {
        b[i] = c;
    }
    b
}

fn version_req() -> DrmVersion {
    DrmVersion {
        version_major: 0,
        version_minor: 0,
        version_patchlevel: 0,
        name_len: 0,
        name: 0,
        date_len: 0,
        date: 0,
        desc_len: 0,
        desc: 0,
    }
}

#[test]
fn version_probe_then_fill() {
    let d = simple();
    let f = DrmFile::new();
    let probe = f.get_version(&d, version_req()).unwrap();
    let lens = match probe {
        VersionReply::Lengths(v) => v,
        VersionReply::Strings => panic!("probe expected"),
    };
    assert_eq!(lens.name_len, 9);
    assert_eq!(lens.date_len, 10);
    assert_eq!(lens.desc_len, "DRM driver for simple-framebuffer platform devices".len() as u64);
    let mut fill = lens;
    fill.name = 0x1000;
    fill.date = 0x2000;
    fill.desc = 0x3000;
    assert_eq!(f.get_version(&d, fill), Ok(VersionReply::Strings));
    fill.desc_len = 3;
    assert_eq!(f.get_version(&d, fill), Err(DrmError::InvalidArgument));
}

#[test]
fn capability_values() {
    let d = simple();
    let f = DrmFile::new();
    let cap = |c: u64| f.get_cap(&d, DrmGetCap { capability: c, value: 0 }).map(|r| r.value);
    assert_eq!(cap(0x1), Ok(1));
    assert_eq!(cap(0x2), Ok(1));
    assert_eq!(cap(0x3), Ok(16));
    assert_eq!(cap(0x4), Ok(0));
    assert_eq!(cap(0x5), Ok(3));
    assert_eq!(cap(0x6), Ok(1));
    assert_eq!(cap(0x7), Ok(0));
    assert_eq!(cap(0x8), Ok(32));
    assert_eq!(cap(0x9), Ok(32));
    assert_eq!(cap(0x10), Ok(0));
    assert_eq!(cap(0x11), Ok(0));
    assert_eq!(cap(0x12), Ok(1));
    assert_eq!(cap(0x13), Ok(0));
    assert_eq!(cap(0x14), Ok(0));
    assert_eq!(cap(0x15), Ok(0));
    assert_eq!(cap(0xa), Err(DrmError::InvalidArgument));
}

#[test]
fn cursor_size_defaults_to_64_when_unset() {
    let mut d = simple();
    d.mode_config.cursor_width = 0;
    d.mode_config.cursor_height = 0;
    let f = DrmFile::new();
    assert_eq!(f.get_cap(&d, DrmGetCap { capability: 0x8, value: 0 }).unwrap().value, 64);
    assert_eq!(f.get_cap(&d, DrmGetCap { capability: 0x9, value: 0 }).unwrap().value, 64);
}

#[test]
fn atomic_async_flip_needs_both() {
    let mut d = simple();
    d.mode_config.async_page_flip = true;
    let f = DrmFile::new();
    assert_eq!(f.get_cap(&d, DrmGetCap { capability: 0x15, value: 0 }).unwrap().value, 0);
    d.driver_features = d.driver_features.with(FEATURE_ATOMIC);
    assert_eq!(f.get_cap(&d, DrmGetCap { capability: 0x15, value: 0 }).unwrap().value, 1);
    assert_eq!(f.get_cap(&d, DrmGetCap { capability: 0x7, value: 0 }).unwrap().value, 1);
}

#[test]
fn modeset_caps_refused_without_modeset() {
    let d = no_modeset();
    let f = DrmFile::new();
    assert_eq!(f.get_cap(&d, DrmGetCap { capability: 0x1, value: 0 }), Err(DrmError::Unsupported));
    assert_eq!(f.get_cap(&d, DrmGetCap { capability: 0x6, value: 0 }).unwrap().value, 1);
}

#[test]
fn atomic_cap_cascades() {
    let d = simple();
    let mut f = DrmFile::new();
    assert_eq!(f.set_client_cap(&d, DrmSetClientCap { capability: 3, value: 2 }), Ok(()));
    assert!(f.caps.atomic);
    assert!(f.caps.universal_planes);
    assert!(f.caps.aspect_ratio_allowed);
    let before = f.caps;
    assert_eq!(f.set_client_cap(&d, DrmSetClientCap { capability: 3, value: 3 }), Err(DrmError::InvalidArgument));
    assert_eq!(f.caps, before);
    assert_eq!(f.set_client_cap(&d, DrmSetClientCap { capability: 3, value: 0 }), Ok(()));
    assert!(!f.caps.atomic);
    assert!(!f.caps.universal_planes);
    assert!(!f.caps.aspect_ratio_allowed);
}

#[test]
fn writeback_needs_atomic_first() {
    let d = simple();
    let mut f = DrmFile::new();
    assert_eq!(f.set_client_cap(&d, DrmSetClientCap { capability: 5, value: 1 }), Err(DrmError::InvalidArgument));
    assert!(!f.caps.writeback_connectors);
    f.set_client_cap(&d, DrmSetClientCap { capability: 3, value: 1 }).unwrap();
    assert_eq!(f.set_client_cap(&d, DrmSetClientCap { capability: 5, value: 1 }), Ok(()));
    assert!(f.caps.writeback_connectors);
    // the simple device has no cursor hotspot feature
    assert_eq!(f.set_client_cap(&d, DrmSetClientCap { capability: 6, value: 1 }), Err(DrmError::Unsupported));
}

#[test]
fn client_cap_values_and_ids_checked() {
    let d = simple();
    let mut f = DrmFile::new();
    assert_eq!(f.set_client_cap(&d, DrmSetClientCap { capability: 1, value: 1 }), Ok(()));
    assert!(f.caps.stereo_allowed);
    assert_eq!(f.set_client_cap(&d, DrmSetClientCap { capability: 1, value: 2 }), Err(DrmError::InvalidArgument));
    assert_eq!(f.set_client_cap(&d, DrmSetClientCap { capability: 2, value: 1 }), Ok(()));
    assert!(f.caps.universal_planes);
    assert_eq!(f.set_client_cap(&d, DrmSetClientCap { capability: 4, value: 1 }), Ok(()));
    assert!(f.caps.aspect_ratio_allowed);
    assert_eq!(f.set_client_cap(&d, DrmSetClientCap { capability: 7, value: 0 }), Err(DrmError::InvalidArgument));
}

#[test]
fn resources_probe_matches_fill() {
    let d = simple();
    let f = DrmFile::new();
    let counts = match f.get_resources(&d, DrmModeGetResources::default()).unwrap() {
        ResourcesReply::Counts(c) => c,
        _ => panic!("probe expected"),
    };
    assert_eq!((counts.count_fbs, counts.count_crtcs, counts.count_connectors, counts.count_encoders), (0, 1, 1, 1));
    let mut fill = counts;
    fill.crtc_id_ptr = 0x100;
    fill.connector_id_ptr = 0x200;
    fill.encoder_id_ptr = 0x300;
    fill.fb_id_ptr = 0x400;
    match f.get_resources(&d, fill).unwrap() {
        ResourcesReply::Ids { fbs, crtcs, connectors, encoders } => {
            assert_eq!(fbs.len() as u32, counts.count_fbs);
            assert_eq!(crtcs, vec![1]);
            assert_eq!(connectors, vec![3]);
            assert_eq!(encoders, vec![2]);
        },
        _ => panic!("fill expected"),
    }
    fill.count_crtcs = 0;
    assert!(matches!(f.get_resources(&d, fill), Err(DrmError::InvalidArgument)));
}

#[test]
fn connector_probe_matches_fill() {
    let mut d = simple();
    d.mode_config.connectors[0].attach_property(1, 7);
    let f = DrmFile::new();
    let mut req = DrmModeGetConnector::default();
    req.connector_id = 3;
    let info = match f.get_connector(&d, req).unwrap() {
        ConnectorReply::Info(i) => i,
        _ => panic!("probe expected"),
    };
    assert_eq!((info.count_modes, info.count_encoders, info.count_props), (1, 1, 1));
    assert_eq!(info.connection, 1);
    assert_eq!(info.mm_width, 384);
    assert_eq!(info.mm_height, 240);
    assert_eq!(info.connector_type_id, 1);
    let mut fill = info;
    fill.modes_ptr = 0x10;
    fill.encoders_ptr = 0x20;
    fill.props_ptr = 0x30;
    fill.prop_values_ptr = 0x40;
    match f.get_connector(&d, fill).unwrap() {
        ConnectorReply::Arrays { modes, encoders, props } => {
            assert_eq!(modes.len(), 1);
            assert_eq!(modes[0].hdisplay, 1280);
            assert_eq!(encoders, vec![2]);
            assert_eq!(props, vec![(1, 7)]);
        },
        _ => panic!("fill expected"),
    }
    fill.count_modes = 0;
    assert!(matches!(f.get_connector(&d, fill), Err(DrmError::InvalidArgument)));
    req.connector_id = 2;
    assert!(matches!(f.get_connector(&d, req), Err(DrmError::NotFound)));
}

#[test]
fn range_property_round_trip() {
    let mut d = simple();
    let id = d.mode_config.register_property(DrmProperty::create_range("x", PropertyFlags::from_bits(0), 0, 1)).unwrap();
    let f = DrmFile::new();
    let mut req = DrmModeGetProperty::default();
    req.prop_id = id;
    let info = match f.get_property(&d, req).unwrap() {
        PropertyReply::Info(i) => i,
        _ => panic!("probe expected"),
    };
    assert_eq!(info.count_values, 2);
    assert_eq!(info.count_enum_blobs, 0);
    assert_eq!(info.flags, 0x2);
    assert_eq!(info.name, name32("x"));
    let mut fill = info;
    fill.values_ptr = 0x100;
    match f.get_property(&d, fill).unwrap() {
        PropertyReply::Arrays { values, enums } => {
            assert_eq!(values, vec![0, 1]);
            assert!(enums.is_empty());
        },
        _ => panic!("fill expected"),
    }
}

#[test]
fn enum_property_round_trip() {
    let mut d = simple();
    let p = DrmProperty::create_enum("power", PropertyFlags::from_bits(0), &[(0, "off"), (1, "on")]);
    assert_eq!(p.count_values(), 2);
    assert_eq!(p.count_enum_blobs(), 2);
    let id = d.mode_config.register_property(p).unwrap();
    let f = DrmFile::new();
    let mut req = DrmModeGetProperty::default();
    req.prop_id = id;
    req.values_ptr = 0x100;
    req.enum_blob_ptr = 0x200;
    req.count_values = 2;
    req.count_enum_blobs = 2;
    match f.get_property(&d, req).unwrap() {
        PropertyReply::Arrays { values, enums } => {
            assert_eq!(values, vec![0, 1]);
            assert_eq!(enums.len(), 2);
            assert_eq!((enums[0].value, enums[0].name), (0, name32("off")));
            assert_eq!((enums[1].value, enums[1].name), (1, name32("on")));
        },
        _ => panic!("fill expected"),
    }
    req.count_enum_blobs = 1;
    assert!(matches!(f.get_property(&d, req), Err(DrmError::InvalidArgument)));
    req.prop_id = 99;
    assert!(matches!(f.get_property(&d, req), Err(DrmError::NotFound)));
}

#[test]
fn blob_property_reports_its_id() {
    let mut d = simple();
    let id = d.mode_config.register_property(DrmProperty::create("edid", PropertyFlags::from_bits(0x10))).unwrap();
    let f = DrmFile::new();
    let mut req = DrmModeGetProperty::default();
    req.prop_id = id;
    req.values_ptr = 0x100;
    req.count_values = 1;
    req.count_enum_blobs = 1;
    match f.get_property(&d, req).unwrap() {
        PropertyReply::Arrays { values, enums } => {
            assert_eq!(values, vec![1]);
            assert!(enums.is_empty());
        },
        _ => panic!("fill expected"),
    }
}

#[test]
fn crtc_encoder_plane_queries() {
    let d = simple();
    let f = DrmFile::new();
    let mut c = drm_core::ioctl_defs::DrmModeCrtc::default();
    c.crtc_id = 1;
    c.x = 9;
    let out = f.get_crtc(&d, c).unwrap();
    assert_eq!((out.fb_id, out.x, out.y, out.gamma_size), (0, 0, 0, 0));
    c.crtc_id = 0;
    assert_eq!(f.get_crtc(&d, c), Err(DrmError::NotFound));
    let mut e = DrmModeGetEncoder::default();
    e.encoder_id = 2;
    let out = f.get_encoder(&d, e).unwrap();
    assert_eq!((out.encoder_type, out.possible_crtcs, out.possible_clones), (5, 1, 0));
    e.encoder_id = 3;
    assert_eq!(f.get_encoder(&d, e), Err(DrmError::NotFound));
    let mut p = DrmModeGetPlane::default();
    p.plane_id = 0;
    p.fb_id = 77;
    let out = f.get_plane(&d, p).unwrap();
    assert_eq!((out.fb_id, out.crtc_id, out.gamma_size), (0, 0, 0));
    p.plane_id = 1;
    assert_eq!(f.get_plane(&d, p), Err(DrmError::NotFound));
    match f.get_plane_resources(&d, DrmModeGetPlaneRes::default()).unwrap() {
        PlaneResReply::Count(c) => assert_eq!(c.count_planes, 1),
        _ => panic!("probe expected"),
    }
    let fill = DrmModeGetPlaneRes { plane_id_ptr: 0x10, count_planes: 1 };
    assert!(matches!(f.get_plane_resources(&d, fill), Ok(PlaneResReply::Ids(ids)) if ids == vec![0]));
    let small = DrmModeGetPlaneRes { plane_id_ptr: 0x10, count_planes: 0 };
    assert!(matches!(f.get_plane_resources(&d, small), Err(DrmError::InvalidArgument)));
}

#[test]
fn object_properties_probe_and_fill() {
    let mut d = simple();
    d.mode_config.planes[0].properties.insert(4, 40);
    let f = DrmFile::new();
    let mut req = DrmModeObjectGetProps::default();
    req.obj_id = 0;
    assert!(matches!(f.object_get_props(&d, req), Ok(ObjectPropsReply::Count(c)) if c.count_props == 1));
    req.props_ptr = 0x10;
    req.prop_values_ptr = 0x20;
    req.count_props = 1;
    assert!(matches!(f.object_get_props(&d, req), Ok(ObjectPropsReply::Pairs(p)) if p == vec![(4, 40)]));
    req.count_props = 0;
    assert!(matches!(f.object_get_props(&d, req), Err(DrmError::InvalidArgument)));
    req.obj_id = 50;
    assert!(matches!(f.object_get_props(&d, req), Err(DrmError::NotFound)));
}

#[test]
fn modeset_gated_operations_refused_without_side_effects() {
    let mut d = no_modeset();
    let mut f = DrmFile::new();
    assert!(matches!(f.get_resources(&d, DrmModeGetResources::default()), Err(DrmError::Unsupported)));
    assert!(matches!(f.get_connector(&d, DrmModeGetConnector::default()), Err(DrmError::Unsupported)));
    assert!(matches!(f.get_property(&d, DrmModeGetProperty::default()), Err(DrmError::Unsupported)));
    assert!(matches!(f.get_plane_resources(&d, DrmModeGetPlaneRes::default()), Err(DrmError::Unsupported)));
    assert!(matches!(f.object_get_props(&d, DrmModeObjectGetProps::default()), Err(DrmError::Unsupported)));
    assert_eq!(f.get_crtc(&d, Default::default()), Err(DrmError::Unsupported));
    assert_eq!(f.get_encoder(&d, Default::default()), Err(DrmError::Unsupported));
    assert_eq!(f.get_plane(&d, Default::default()), Err(DrmError::Unsupported));
    assert_eq!(f.set_property(&d), Err(DrmError::Unsupported));
    assert_eq!(f.create_dumb(&mut d, DrmModeCreateDumb { width: 4, height: 4, bpp: 32, ..Default::default() }), Err(DrmError::Unsupported));
    assert_eq!(f.map_dumb(&mut d, DrmModeMapDumb::default()), Err(DrmError::Unsupported));
    assert_eq!(f.destroy_dumb(&mut d, DrmModeDestroyDumb { handle: 1 }), Err(DrmError::Unsupported));
    assert_eq!(f.add_fb(&mut d, DrmModeFBCmd::default()), Err(DrmError::Unsupported));
    assert_eq!(f.rm_fb(&mut d, DrmModeFBCmd::default()), Err(DrmError::Unsupported));
    assert_eq!(f.set_crtc(&mut d, Default::default()), Err(DrmError::Unsupported));
    assert_eq!(f.dirty_fb(&mut d, Default::default()), Err(DrmError::Unsupported));
    assert_eq!(d.buffers.len(), 0);
    assert_eq!(d.mode_config.count_framebuffers(), 0);
    assert_eq!(d.mode_config.next_object_id, 0);
    assert_eq!(f.next_handle, 1);
}

#[test]
fn cursor_is_not_supported() {
    let f = DrmFile::new();
    assert_eq!(f.cursor(DrmModeCursor::default()), Err(DrmError::NotSupportedHardware));
}

#[test]
fn minors_and_node_paths() {
    let d = simple();
    let minors = drm_core::device::drm_dev_register(&d);
    assert_eq!(minors.len(), 1);
    assert_eq!(minors[0].type_, DrmMinorType::Primary);
    let mut r = simple();
    r.driver_features = r.driver_features.with(FEATURE_RENDER);
    let minors = drm_core::device::drm_dev_register(&r);
    assert_eq!(minors.iter().map(|m| m.type_).collect::<Vec<_>>(), vec![DrmMinorType::Render, DrmMinorType::Primary]);
    let card = DrmMinor { index: 2, type_: DrmMinorType::Primary };
    assert_eq!(card.devtmpfs_path(), Some("dri/card2".to_string()));
    assert_eq!(card.id(), Some((226, 2)));
    let render = DrmMinor { index: 2, type_: DrmMinorType::Render };
    assert_eq!(render.devtmpfs_path(), Some("dri/render130".to_string()));
    assert_eq!(render.id(), Some((226, 130)));
    let control = DrmMinor { index: 15, type_: DrmMinorType::Control };
    assert_eq!(control.devtmpfs_path(), Some("dri/controlD15".to_string()));
    let accel = DrmMinor { index: 0, type_: DrmMinorType::Accel };
    assert_eq!(accel.devtmpfs_path(), None);
    assert_eq!(DrmMinorType::Accel.code(), 32);
    let f = card.open();
    assert_eq!(f.next_handle, 1);
}

#[test]
fn command_numbers_and_their_gates() {
    assert_eq!(DrmCommand::decode(0x00), Ok(DrmCommand::Version));
    assert_eq!(DrmCommand::decode(0xa0), Ok(DrmCommand::GetResources));
    assert_eq!(DrmCommand::decode(0xb2), Ok(DrmCommand::CreateDumb));
    assert_eq!(DrmCommand::decode(0xbb), Ok(DrmCommand::Cursor2));
    assert_eq!(DrmCommand::decode(0x42), Err(DrmError::UnknownCommand));
    assert_eq!(DrmCommand::GetResources.required_feature(), FEATURE_MODESET);
    assert_eq!(DrmCommand::DestroyDumb.required_feature(), FEATURE_MODESET);
    assert_eq!(DrmCommand::GetCap.required_feature(), 0);
    assert_eq!(DrmCommand::GetPropBlob.required_feature(), 0);
    assert_eq!(DrmCommand::Cursor.required_feature(), 0);
}

#[test]
fn stub_operations_are_accepted() {
    let f = DrmFile::new();
    assert_eq!(f.get_prop_blob(Default::default()), Ok(()));
    assert_eq!(f.set_gamma(Default::default()), Ok(()));
    assert_eq!(f.set_master(), Ok(()));
    assert_eq!(f.set_property(&simple()), Ok(()));
}
