//! Mode-setting object registry, buffer objects, device topology and the
//! control-operation dispatcher of a display driver core.

pub mod error;
pub mod id_map;
pub mod features;
pub mod property;
pub mod mode;
pub mod objects;
pub mod mode_config;
pub mod gem;
pub mod names;
pub mod device;
pub mod ioctl_defs;
pub mod file;
pub mod gpu_dev;
pub mod simpledrm;
pub mod laws;
pub mod probe;
