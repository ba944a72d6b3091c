use drm_core::device::{DrmDevice, DrmDriverOps, DumbCreateProvider};
use drm_core::error::{DrmError, Error};
use drm_core::file::DrmFile;
use drm_core::gem::{dumb_create_impl, DrmMemfdFile};
use drm_core::gpu_dev::GpuDevices;
use drm_core::ioctl_defs::{
    element_addr, DrmModeCreateDumb, DrmModeCrtc, DrmModeDestroyDumb, DrmModeFBCmd,
    DrmModeFbDirtyCmd, DrmModeMapDumb,
};
use drm_core::probe::{match_drivers, probe_outcome};
use drm_core::simpledrm::{SimpleDrmDevice, SimpleDrmDriver};
use drm_core::device::DrmDriver;

fn simple() -> DrmDevice {
    SimpleDrmDevice::new(0).unwrap().device
}

fn dumb(width: u32, height: u32, bpp: u32) -> DrmModeCreateDumb {
    DrmModeCreateDumb { width, height, bpp, ..Default::default() }
}

#[test]
fn dumb_buffer_lifecycle() {
    let mut d = simple();
    let mut f = DrmFile::new();
    let a = f.create_dumb(&mut d, dumb(1280, 800, 32)).unwrap();
    assert_eq!(a.handle, 1);
    assert_eq!(a.pitch, 5120);
    assert_eq!(a.size, 4_096_000);
    let b = f.create_dumb(&mut d, dumb(1280, 800, 32)).unwrap();
    assert_eq!(b.handle, 2);
    assert_eq!(f.destroy_dumb(&mut d, DrmModeDestroyDumb { handle: 1 }), Ok(()));
    assert_eq!(f.map_dumb(&mut d, DrmModeMapDumb { handle: 1, ..Default::default() }), Err(DrmError::NotFound));
    assert_eq!(f.destroy_dumb(&mut d, DrmModeDestroyDumb { handle: 1 }), Err(DrmError::NotFound));
    assert_eq!(f.destroy_dumb(&mut d, DrmModeDestroyDumb { handle: 77 }), Err(DrmError::NotFound));
    // handles are never reused
    let c = f.create_dumb(&mut d, dumb(2, 2, 32)).unwrap();
    assert_eq!(c.handle, 3);
}

#[test]
fn handles_are_per_session() {
    let mut d = simple();
    let mut f1 = DrmFile::new();
    let mut f2 = DrmFile::new();
    assert_eq!(f1.create_dumb(&mut d, dumb(4, 4, 32)).unwrap().handle, 1);
    assert_eq!(f2.create_dumb(&mut d, dumb(4, 4, 32)).unwrap().handle, 1);
    assert_eq!(f1.lookup_gem(1), Some(0));
    assert_eq!(f2.lookup_gem(1), Some(1));
    assert_eq!(f1.lookup_gem(2), None);
}

#[test]
fn map_offsets_resolve_until_destroyed() {
    let mut d = simple();
    let mut f = DrmFile::new();
    let h = f.create_dumb(&mut d, dumb(16, 16, 32)).unwrap().handle;
    let m1 = f.map_dumb(&mut d, DrmModeMapDumb { handle: h, ..Default::default() }).unwrap();
    let m2 = f.map_dumb(&mut d, DrmModeMapDumb { handle: h, ..Default::default() }).unwrap();
    assert_eq!(m1.offset, 0);
    assert_eq!(m2.offset, 4096);
    assert_eq!(d.lookup_offset(m1.offset), Some(0));
    assert_eq!(d.lookup_offset(m2.offset), Some(0));
    assert_eq!(d.lookup_offset(100), None);
    f.destroy_dumb(&mut d, DrmModeDestroyDumb { handle: h }).unwrap();
    assert_eq!(d.lookup_offset(m1.offset), None);
    assert_eq!(d.lookup_offset(m2.offset), None);
    // the buffer object stays, released
    assert_eq!(d.buffers.len(), 1);
    assert_eq!(d.buffers[0].size(), 1024);
    assert_eq!(d.buffers[0].downcast_ref().unwrap().len(), 0);
}

#[test]
fn dumb_size_overflow_is_invalid() {
    let mut d = simple();
    let mut f = DrmFile::new();
    assert_eq!(f.create_dumb(&mut d, dumb(70000, 70000, 32)), Err(DrmError::InvalidArgument));
    assert_eq!(f.create_dumb(&mut d, dumb(u32::MAX, 1, 32)), Err(DrmError::InvalidArgument));
    assert_eq!(f.next_handle, 1);
    assert_eq!(d.buffers.len(), 0);
    assert!(dumb_create_impl(3, 5, 24).is_ok());
    let g = dumb_create_impl(3, 5, 24).unwrap();
    assert_eq!((g.pitch(), g.size()), (9, 45));
}

#[test]
fn dumb_buffers_need_the_hook() {
    let mut d = simple();
    d.driver_ops = DrmDriverOps::empty();
    let mut f = DrmFile::new();
    assert_eq!(f.create_dumb(&mut d, dumb(4, 4, 32)), Err(DrmError::Unimplemented));
    assert_eq!(f.map_dumb(&mut d, DrmModeMapDumb::default()), Err(DrmError::Unimplemented));
    assert_eq!(f.destroy_dumb(&mut d, DrmModeDestroyDumb { handle: 1 }), Err(DrmError::Unimplemented));
    let cap = f.get_cap(&d, drm_core::ioctl_defs::DrmGetCap { capability: 1, value: 9 }).unwrap();
    assert_eq!(cap.value, 0);
}

#[test]
fn add_and_remove_framebuffers() {
    let mut d = simple();
    let mut f = DrmFile::new();
    let h = f.create_dumb(&mut d, dumb(8, 2, 32)).unwrap().handle;
    let cmd = DrmModeFBCmd { width: 8, height: 2, pitch: 32, bpp: 32, depth: 24, handle: h, fb_id: 0 };
    let out = f.add_fb(&mut d, cmd).unwrap();
    assert_eq!(out.fb_id, 4);
    assert_eq!(d.mode_config.lookup_framebuffer(&4).unwrap().gem_obj, 0);
    assert_eq!(f.add_fb(&mut d, DrmModeFBCmd { handle: 9, ..cmd }), Err(DrmError::NotFound));
    assert_eq!(f.rm_fb(&mut d, DrmModeFBCmd { fb_id: 4, ..cmd }), Ok(()));
    assert!(d.mode_config.lookup_framebuffer(&4).is_none());
    // removing again is accepted
    assert_eq!(f.rm_fb(&mut d, DrmModeFBCmd { fb_id: 4, ..cmd }), Ok(()));
    // the buffer outlives the framebuffer
    assert_eq!(f.lookup_gem(h), Some(0));
    assert_eq!(d.buffers[0].size(), 64);
}

#[test]
fn scanout_copy_needs_a_surface() {
    let mut d = simple();
    let mut f = DrmFile::new();
    let h = f.create_dumb(&mut d, dumb(2, 1, 32)).unwrap().handle;
    let fb = f.add_fb(&mut d, DrmModeFBCmd { width: 2, height: 1, pitch: 8, bpp: 32, depth: 24, handle: h, fb_id: 0 }).unwrap().fb_id;
    let set = DrmModeCrtc { crtc_id: 1, fb_id: fb, ..Default::default() };
    assert_eq!(f.set_crtc(&mut d, set), Err(DrmError::NotFound));
    d.buffers[0].write(0, &[1, 2, 3, 4, 5, 6, 7, 8]).unwrap();
    d.set_scanout(Some(vec![9u8; 12]));
    assert_eq!(f.set_crtc(&mut d, set), Ok(()));
    assert_eq!(d.scanout.as_ref().unwrap(), &vec![1, 2, 3, 4, 5, 6, 7, 8, 9, 9, 9, 9]);
    d.buffers[0].write(4, &[0, 0]).unwrap();
    let dirty = DrmModeFbDirtyCmd { fb_id: fb, ..Default::default() };
    assert_eq!(f.dirty_fb(&mut d, dirty), Ok(()));
    assert_eq!(d.scanout.as_ref().unwrap(), &vec![1, 2, 3, 4, 0, 0, 7, 8, 9, 9, 9, 9]);
    let missing = DrmModeFbDirtyCmd { fb_id: 99, ..Default::default() };
    assert_eq!(f.dirty_fb(&mut d, missing), Err(DrmError::NotFound));
    assert_eq!(d.scanout.as_ref().unwrap().len(), 12);
}

#[test]
fn memfd_reads_and_writes_within_its_size() {
    let mut m = DrmMemfdFile::new(4);
    assert_eq!(m.write_at(2, &[7, 8, 9]), 2);
    let mut out = vec![0u8; 6];
    assert_eq!(m.read_at(0, &mut out), 4);
    assert_eq!(out, vec![0, 0, 7, 8, 0, 0]);
    assert_eq!(m.read_at(4, &mut out), 0);
    assert_eq!(m.mappable(), &[0, 0, 7, 8]);
    m.truncate();
    assert_eq!(m.write_at(0, &[1]), 0);
    assert_eq!(m.len(), 0);
}

#[test]
fn driver_ops_merge_last_present_wins() {
    let memfd = DrmDriverOps { dumb_create: Some(DumbCreateProvider::Memfd) };
    let none = DrmDriverOps::empty();
    assert_eq!(none.merge(memfd), memfd);
    assert_eq!(memfd.merge(none), memfd);
    assert_eq!(DrmDriverOps::merge_all(&[memfd], none), memfd);
    assert_eq!(DrmDriverOps::merge_all(&[], none), none);
    assert_eq!(DrmDriverOps::merge_all(&[none, none], memfd), memfd);
}

#[test]
fn gpu_device_registry() {
    let mut g = GpuDevices::new();
    assert_eq!(g.register_device(10), Ok(()));
    assert_eq!(g.register_device(20), Ok(()));
    assert_eq!(g.register_device(10), Ok(()));
    assert_eq!(g.snapshot(), vec![10, 20, 10]);
    assert_eq!(g.unregister_device(10), Ok(10));
    assert_eq!(g.snapshot(), vec![20, 10]);
    assert_eq!(g.unregister_device(30), Err(Error::NotFound));
    assert_eq!(g.snapshot(), vec![20, 10]);
}

#[test]
fn element_addresses() {
    assert_eq!(element_addr(0x1000, 3, 4), Some(0x100c));
    assert_eq!(element_addr(u64::MAX, 1, 4), None);
    assert_eq!(element_addr(0, u64::MAX, 2), None);
}

#[test]
fn closing_a_session_drops_its_handles() {
    let mut d = simple();
    let mut f = DrmFile::new();
    let shown = f.create_dumb(&mut d, dumb(2, 2, 32)).unwrap().handle;
    let hidden = f.create_dumb(&mut d, dumb(2, 2, 32)).unwrap().handle;
    f.add_fb(&mut d, DrmModeFBCmd { width: 2, height: 2, pitch: 8, bpp: 32, depth: 24, handle: shown, fb_id: 0 }).unwrap();
    let m = f.map_dumb(&mut d, DrmModeMapDumb { handle: hidden, ..Default::default() }).unwrap();
    f.close(&mut d);
    assert_eq!(f.lookup_gem(shown), None);
    assert_eq!(f.lookup_gem(hidden), None);
    assert_eq!(d.lookup_offset(m.offset), None);
    assert_eq!(d.buffers[0].downcast_ref().unwrap().len(), 16);
    assert_eq!(d.buffers[1].downcast_ref().unwrap().len(), 0);
    assert_eq!(d.mode_config.count_framebuffers(), 1);
}

#[test]
fn mapping_shows_the_buffer_bytes() {
    let mut d = simple();
    let mut f = DrmFile::new();
    let h = f.create_dumb(&mut d, dumb(1, 1, 32)).unwrap().handle;
    d.buffers[0].write(0, &[4, 3, 2, 1]).unwrap();
    let m = f.map_dumb(&mut d, DrmModeMapDumb { handle: h, ..Default::default() }).unwrap();
    assert_eq!(d.mappable_with_offset(m.offset), Ok(&[4u8, 3, 2, 1][..]));
    assert_eq!(d.mappable_with_offset(m.offset + 4096), Err(DrmError::InvalidArgument));
    assert_eq!(d.mappable_with_offset(7), Err(DrmError::InvalidArgument));
}

#[test]
fn drivers_matched_by_name() {
    let m = match_drivers(&["simpledrm", "virtio", "simpledrm"], &["virtio", "simpledrm", "virtio"]);
    assert_eq!(m, vec![Some(1), Some(0), Some(1)]);
    assert_eq!(match_drivers(&["none"], &["simpledrm"]), vec![None]);
    assert_eq!(probe_outcome(0, 0), Err(DrmError::NotFound));
    assert_eq!(probe_outcome(2, 0), Err(DrmError::NotFound));
    assert_eq!(probe_outcome(2, 1), Ok(()));
}

#[test]
fn simple_driver_creates_its_device() {
    let drv = SimpleDrmDriver {};
    assert_eq!(drv.name(), "simpledrm");
    assert_eq!(drv.date(), "2025-01-02");
    assert_eq!(drv.handle_command(1, 0), Ok(()));
    let d = drv.create_device(4).unwrap();
    assert_eq!(d.index, 4);
    assert!(d.check_feature(drm_core::features::FEATURE_MODESET));
    assert!(!d.check_feature(drm_core::features::FEATURE_ATOMIC));
    assert_eq!(d.name, b"simpledrm".to_vec());
}
