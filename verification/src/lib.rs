//! Configuration schema of a guest virtual machine: the typed description of
//! its identity, resources, boot images, memory regions and devices, the
//! mapping between wire-level numeric codes and their meaning, and the rules
//! by which a TOML document is turned into that description.

pub mod codes;
pub mod config;
pub mod decode;
pub mod document;
pub mod fields;
pub mod number;
pub mod templates;

pub use codes::{EmulatedDeviceType, VMInterruptMode, VMType, VmMemMappingType};
pub use document::Value;
pub use config::{
    AxVMCrateConfig, EmulatedDeviceConfig, PassThroughDeviceConfig, VMBaseConfig, VMDevicesConfig,
    VMKernelConfig, VmMemConfig,
};
pub use templates::{get_vm_config_template, vm_name, wants_absolute_path};
pub use decode::ConfigError;
pub use number::parse_usize;
