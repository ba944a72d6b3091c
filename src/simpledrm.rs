use vstd::prelude::*;
use crate::device::{DrmDevice, DrmDriver, DrmDriverOps, DumbCreateProvider};
use crate::error::DrmError;
use crate::features::{contains_bits, DrmDriverFeatures, FEATURE_ATOMIC, FEATURE_GEM, FEATURE_MODESET};
use crate::gpu_dev::GpuDevice;
use crate::mode::{fake_modeinfo, DrmModeModeInfo};
use crate::mode_config::{
    all_in, crtc_ids, crtc_indices, dedup_modes, encoder_ids, index_mask, plane_ids, DrmModeConfig,
};
use crate::objects::{
    ConnectorStatus, DrmConnector, DrmCrtc, DrmEncoder, DrmFramebuffer, DrmPlane, EncoderType,
    ModeConfigFuncs, PlaneType,
};

verus! {

pub const SIMPLEDRM_NAME: &'static str = "simpledrm";
pub const SIMPLEDRM_DESC: &'static str = "DRM driver for simple-framebuffer platform devices";
pub const SIMPLEDRM_DATE: &'static str = "2025-01-02";

/// Driver for a firmware-provided framebuffer: one primary plane, one
/// CRTC, one virtual encoder and one connector with a fixed mode.
#[derive(Debug)]
pub struct SimpleDrmDriver {}

/// A device of the simple driver.
#[derive(Debug)]
pub struct SimpleDrmDevice {
    pub device: DrmDevice,
}

/// The features of the simple driver: buffer objects and mode setting.
pub open spec fn simple_features() -> u32 {
    FEATURE_GEM | FEATURE_MODESET
}

impl SimpleDrmDevice {
    /// Builds the device's object graph: the plane gets id 0, the CRTC 1,
    /// the encoder 2 and the connector 3.
    pub fn new(index: u32) -> (r: Result<SimpleDrmDevice, DrmError>)
        ensures
            r matches Ok(d) && {
                let dev = d.device;
                let cfg = dev.mode_config;
                &&& dev.wf()
                &&& dev.index == index
                &&& dev.driver_features.bits == simple_features()
                &&& contains_bits(dev.driver_features.bits, FEATURE_GEM)
                &&& contains_bits(dev.driver_features.bits, FEATURE_MODESET)
                &&& !contains_bits(dev.driver_features.bits, FEATURE_ATOMIC)
                &&& dev.driver_ops.dumb_create == Some(DumbCreateProvider::Memfd)
                &&& dev.buffers@.len() == 0
                &&& cfg.next_object_id == 4
                &&& cfg.planes@.len() == 1 && cfg.planes@[0].id == 0 && cfg.planes@[0].type_ == PlaneType::Primary
                &&& cfg.crtcs@.len() == 1 && cfg.crtcs@[0].id == 1 && cfg.crtcs@[0].primary_plane == 0
                    && cfg.crtcs@[0].index == 0
                &&& cfg.encoders@.len() == 1 && cfg.encoders@[0].id == 2 && cfg.encoders@[0].type_
                    == EncoderType::VIRTUAL && cfg.encoders@[0].possible_crtcs == 1
                &&& cfg.connectors@.len() == 1 && cfg.connectors@[0].id == 3
                    && cfg.connectors@[0].status == ConnectorStatus::Connected
                    && cfg.connectors@[0].modes@.len() == 1
                    && cfg.connectors@[0].possible_encoders@.dom() == set![2u32]
                &&& cfg.framebuffers@.len() == 0
            },
    {
        let mut mode_config = DrmModeConfig::default();
        let plane = DrmPlane::init(&mut mode_config, PlaneType::Primary)?;
        proof {
            assert(plane_ids(mode_config.planes@)[0] == plane);
        }
        let crtc = DrmCrtc::init_with_planes(&mut mode_config, None, plane, None)?;
        let crtcs = [crtc];
        proof {
            assert(crtc_ids(mode_config.crtcs@)[0] == crtc);
            assert(crtcs@[0] == crtc);
            assert(all_in(crtcs@, crtc_ids(mode_config.crtcs@)));
            let c = choose|c: int| 0 <= c < mode_config.crtcs@.len() && mode_config.crtcs@[c].id == crtc;
            assert(c == 0);
            assert(crtc_indices(mode_config.crtcs@, crtcs@) =~= seq![0u8]);
            assert(seq![0u8].drop_last() =~= Seq::<u8>::empty());
            assert(index_mask(Seq::<u8>::empty()) == 0);
            assert(seq![0u8].last() == 0u8);
            assert(index_mask(seq![0u8]) == index_mask(seq![0u8].drop_last()) | (1u32 << 0u32));
            assert(index_mask(seq![0u8]) == 0u32 | (1u32 << 0u32));
            assert(0u32 | (1u32 << 0u32) == 1) by (bit_vector);
        }
        let encoder = DrmEncoder::init_with_crtcs(&mut mode_config, EncoderType::VIRTUAL, &crtcs)?;
        let modes = [fake_modeinfo()];
        let encoders = [encoder];
        proof {
            assert(encoder_ids(mode_config.encoders@)[0] == encoder);
            assert(encoders@[0] == encoder);
            assert(all_in(encoders@, encoder_ids(mode_config.encoders@)));
            assert(encoders@.to_set() =~= set![2u32]) by {
                assert(encoders@ =~= seq![2u32]);
                assert(encoders@.to_set().contains(2u32));
            }
            let ms = modes@;
            assert(ms.drop_last() =~= Seq::<DrmModeModeInfo>::empty());
            assert(dedup_modes(ms.drop_last()) =~= Seq::<DrmModeModeInfo>::empty());
            assert(dedup_modes(ms).len() == 1);
        }
        let _connector = DrmConnector::init_with_encoder(
            &mut mode_config,
            ConnectorStatus::Connected,
            &modes,
            &encoders,
        )?;
        mode_config.init_standard_properties();
        proof {
            assert((1u32 | 2u32) & 1u32 == 1u32) by (bit_vector);
            assert((1u32 | 2u32) & 2u32 == 2u32) by (bit_vector);
            assert((1u32 | 2u32) & 16u32 != 16u32) by (bit_vector);
        }
        let device = DrmDevice::new(
            index,
            SIMPLEDRM_NAME,
            SIMPLEDRM_DESC,
            SIMPLEDRM_DATE,
            DrmDriverFeatures::from_bits(FEATURE_GEM | FEATURE_MODESET),
            DrmDriverOps { dumb_create: Some(DumbCreateProvider::Memfd) },
            mode_config,
        );
        Ok(SimpleDrmDevice { device })
    }
}

impl DrmDriver for SimpleDrmDriver {
    fn name(&self) -> &str {
        SIMPLEDRM_NAME
    }

    fn desc(&self) -> &str {
        SIMPLEDRM_DESC
    }

    fn date(&self) -> &str {
        SIMPLEDRM_DATE
    }

    fn create_device(&self, index: u32) -> Result<DrmDevice, DrmError> {
        let sdev = SimpleDrmDevice::new(index)?;
        Ok(sdev.device)
    }

    fn driver_features(&self) -> DrmDriverFeatures {
        DrmDriverFeatures::from_bits(FEATURE_GEM | FEATURE_MODESET)
    }

    fn driver_ops(&self) -> DrmDriverOps {
        DrmDriverOps { dumb_create: Some(DumbCreateProvider::Memfd) }
    }
}

/// Framebuffer construction of the simple driver: a plain framebuffer.
#[derive(Debug)]
pub struct SimpleModeConfigFuncs {}

impl ModeConfigFuncs for SimpleModeConfigFuncs {
    fn create_framebuffer(
        &self,
        width: u32,
        height: u32,
        pitch: u32,
        bpp: u32,
        gem_obj: u64,
    ) -> Result<DrmFramebuffer, DrmError> {
        Ok(DrmFramebuffer::new(width, height, pitch, bpp, gem_obj))
    }
}

/// The platform device that the simple driver drives.
#[derive(Debug)]
pub struct SimpleGpuDevice {}

impl GpuDevice for SimpleGpuDevice {
    fn name(&self) -> &str {
        SIMPLEDRM_NAME
    }
}

} // verus!
