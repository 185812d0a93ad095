//! From a document to a VM description.
//!
//! Each record of the schema is read from a table, by field names, or from
//! an array, by field positions. Keys that the schema does not know are
//! passed over, and so is what follows the last field in an array. Numeric
//! codes of the code tables never fail a document: one that no variant owns
//! is read as the table's default. Nothing is checked across fields.

use crate::codes::{EmulatedDeviceType, VMInterruptMode, VmMemMappingType};
use crate::config::{
    emulated_views, passthrough_views, AxVMCrateConfig, AxVMCrateView, EmulatedDeviceConfig,
    EmulatedDeviceView, PassThroughDeviceConfig, PassThroughDeviceView, VMBaseConfig, VMBaseView,
    VMDevicesConfig, VMDevicesView, VMKernelConfig, VMKernelView, VmMemConfig,
};
use crate::document::{error_message, lower, parse_table, toml_document, Value};
use crate::fields::{
    optional_text, optional_text_of, optional_usize, optional_usize_list,
    optional_usize_list_of, optional_usize_of, required_code, required_code_of, required_text,
    required_text_of, required_usize, required_usize_list, required_usize_list_of,
    required_usize_of,
};
use vstd::prelude::*;

verus! {

/// Why no description came out of a text. There is one kind, invalid input;
/// it carries words for a human reader.
#[derive(Debug, Clone, PartialEq, Eq)]
pub enum ConfigError {
    /// The text is not well-formed TOML, or the document does not fit the
    /// schema: a mandatory field is absent, a value has the wrong type, or an
    /// interrupt mode has a name that no variant owns.
    InvalidInput(String),
}

impl ConfigError {
    /// The words that the error carries.
    pub open spec fn text(self) -> Seq<char> {
        match self {
            ConfigError::InvalidInput(message) => message@,
        }
    }

    /// The words that the error carries.
    pub fn message(&self) -> (r: String)
        ensures
            r@ == self.text(),
    {
        match self {
            ConfigError::InvalidInput(message) => message.clone(),
        }
    }
}

/// The words of the error for a well-formed document that does not fit the
/// schema.
pub open spec fn mismatch_text() -> Seq<char> {
    "the document does not match the VM configuration schema"@
}

/// The error for a well-formed document that does not fit the schema.
pub fn mismatch() -> (r: ConfigError)
    ensures
        r.text() == mismatch_text(),
{
    ConfigError::InvalidInput("the document does not match the VM configuration schema".to_owned())
}

/// The memory region that a value describes: `gpa`, `size`, `flags` and
/// `map_type`, all mandatory.
pub open spec fn mem_region_of(value: Value) -> Option<VmMemConfig> {
    let gpa = required_usize_of(value, 0, "gpa"@);
    let size = required_usize_of(value, 1, "size"@);
    let flags = required_usize_of(value, 2, "flags"@);
    let code = required_code_of(value, 3, "map_type"@);
    if gpa is Some && size is Some && flags is Some && code is Some {
        Some(
            VmMemConfig {
                gpa: gpa.unwrap(),
                size: size.unwrap(),
                flags: flags.unwrap(),
                map_type: VmMemMappingType::decoded(code.unwrap()),
            },
        )
    } else {
        None
    }
}

/// The emulated device that a value describes: `name`, `base_gpa`, `length`,
/// `irq_id`, `emu_type` and `cfg_list`, all mandatory.
pub open spec fn emulated_device_of(value: Value) -> Option<EmulatedDeviceView> {
    let name = required_text_of(value, 0, "name"@);
    let base_gpa = required_usize_of(value, 1, "base_gpa"@);
    let length = required_usize_of(value, 2, "length"@);
    let irq_id = required_usize_of(value, 3, "irq_id"@);
    let code = required_code_of(value, 4, "emu_type"@);
    let cfg_list = required_usize_list_of(value, 5, "cfg_list"@);
    if name is Some && base_gpa is Some && length is Some && irq_id is Some && code is Some
        && cfg_list is Some {
        Some(
            EmulatedDeviceView {
                name: name.unwrap(),
                base_gpa: base_gpa.unwrap(),
                length: length.unwrap(),
                irq_id: irq_id.unwrap(),
                emu_type: EmulatedDeviceType::decoded(code.unwrap() as usize),
                cfg_list: cfg_list.unwrap(),
            },
        )
    } else {
        None
    }
}

/// The passed-through device that a value describes: `name`, `base_gpa`,
/// `base_hpa`, `length` and `irq_id`, all mandatory.
pub open spec fn passthrough_device_of(value: Value) -> Option<PassThroughDeviceView> {
    let name = required_text_of(value, 0, "name"@);
    let base_gpa = required_usize_of(value, 1, "base_gpa"@);
    let base_hpa = required_usize_of(value, 2, "base_hpa"@);
    let length = required_usize_of(value, 3, "length"@);
    let irq_id = required_usize_of(value, 4, "irq_id"@);
    if name is Some && base_gpa is Some && base_hpa is Some && length is Some && irq_id is Some {
        Some(
            PassThroughDeviceView {
                name: name.unwrap(),
                base_gpa: base_gpa.unwrap(),
                base_hpa: base_hpa.unwrap(),
                length: length.unwrap(),
                irq_id: irq_id.unwrap(),
            },
        )
    } else {
        None
    }
}

/// The memory regions that a value lists, in its order.
pub open spec fn mem_regions_of(value: Value) -> Option<Seq<VmMemConfig>> {
    match value {
        Value::Array(items) => if forall|i: int|
            0 <= i < items@.len() ==> (#[trigger] mem_region_of(items@[i])) is Some {
            Some(Seq::new(items@.len(), |i: int| mem_region_of(items@[i]).unwrap()))
        } else {
            None
        },
        _ => None,
    }
}

/// The emulated devices that a value lists, in its order.
pub open spec fn emulated_devices_of(value: Value) -> Option<Seq<EmulatedDeviceView>> {
    match value {
        Value::Array(items) => if forall|i: int|
            0 <= i < items@.len() ==> (#[trigger] emulated_device_of(items@[i])) is Some {
            Some(Seq::new(items@.len(), |i: int| emulated_device_of(items@[i]).unwrap()))
        } else {
            None
        },
        _ => None,
    }
}

/// The passed-through devices that a value lists, in its order.
pub open spec fn passthrough_devices_of(value: Value) -> Option<Seq<PassThroughDeviceView>> {
    match value {
        Value::Array(items) => if forall|i: int|
            0 <= i < items@.len() ==> (#[trigger] passthrough_device_of(items@[i])) is Some {
            Some(Seq::new(items@.len(), |i: int| passthrough_device_of(items@[i]).unwrap()))
        } else {
            None
        },
        _ => None,
    }
}

/// Whether a value is an empty array or an empty table: what a variant
/// without data may have for its data.
pub open spec fn is_unit(value: Value) -> bool {
    match value {
        Value::Array(items) => items@.len() == 0,
        Value::Table(entries) => entries@.len() == 0,
        _ => false,
    }
}

/// The interrupt mode that a value names: a string that is a name or alias
/// of a variant, or a table whose single key is one and holds no data.
pub open spec fn interrupt_mode_of(value: Value) -> Option<VMInterruptMode> {
    match value {
        Value::String(name) => VMInterruptMode::named(name@),
        Value::Table(entries) => if entries@.len() == 1 && is_unit(entries@[0].1) {
            VMInterruptMode::named(entries@[0].0@)
        } else {
            None
        },
        _ => None,
    }
}

/// The interrupt mode of a devices record: `NoIrq` where the field is
/// absent, `None` where it is present and names no variant.
pub open spec fn interrupt_mode_field_of(record: Value) -> Option<VMInterruptMode> {
    match record.field(2, "interrupt_mode"@) {
        Some(v) => interrupt_mode_of(v),
        None => Some(VMInterruptMode::NoIrq),
    }
}

/// The base description that a value holds: `id`, `name`, `vm_type` and
/// `cpu_num` are mandatory, `phys_cpu_ids` and `phys_cpu_sets` optional.
pub open spec fn base_of(value: Value) -> Option<VMBaseView> {
    let id = required_usize_of(value, 0, "id"@);
    let name = required_text_of(value, 1, "name"@);
    let vm_type = required_usize_of(value, 2, "vm_type"@);
    let cpu_num = required_usize_of(value, 3, "cpu_num"@);
    let phys_cpu_ids = optional_usize_list_of(value, 4, "phys_cpu_ids"@);
    let phys_cpu_sets = optional_usize_list_of(value, 5, "phys_cpu_sets"@);
    if id is Some && name is Some && vm_type is Some && cpu_num is Some && phys_cpu_ids is Some
        && phys_cpu_sets is Some {
        Some(
            VMBaseView {
                id: id.unwrap(),
                name: name.unwrap(),
                vm_type: vm_type.unwrap(),
                cpu_num: cpu_num.unwrap(),
                phys_cpu_ids: phys_cpu_ids.unwrap(),
                phys_cpu_sets: phys_cpu_sets.unwrap(),
            },
        )
    } else {
        None
    }
}

/// The memory regions of a kernel record: a mandatory field.
pub open spec fn mem_regions_field_of(record: Value) -> Option<Seq<VmMemConfig>> {
    match record.field(12, "memory_regions"@) {
        Some(v) => mem_regions_of(v),
        None => None,
    }
}

/// The kernel description that a value holds: `entry_point`, `kernel_path`,
/// `kernel_load_addr` and `memory_regions` are mandatory, the others
/// optional, each on its own.
pub open spec fn kernel_of(value: Value) -> Option<VMKernelView> {
    let entry_point = required_usize_of(value, 0, "entry_point"@);
    let kernel_path = required_text_of(value, 1, "kernel_path"@);
    let kernel_load_addr = required_usize_of(value, 2, "kernel_load_addr"@);
    let bios_path = optional_text_of(value, 3, "bios_path"@);
    let bios_load_addr = optional_usize_of(value, 4, "bios_load_addr"@);
    let dtb_path = optional_text_of(value, 5, "dtb_path"@);
    let dtb_load_addr = optional_usize_of(value, 6, "dtb_load_addr"@);
    let ramdisk_path = optional_text_of(value, 7, "ramdisk_path"@);
    let ramdisk_load_addr = optional_usize_of(value, 8, "ramdisk_load_addr"@);
    let image_location = optional_text_of(value, 9, "image_location"@);
    let cmdline = optional_text_of(value, 10, "cmdline"@);
    let disk_path = optional_text_of(value, 11, "disk_path"@);
    let memory_regions = mem_regions_field_of(value);
    if entry_point is Some && kernel_path is Some && kernel_load_addr is Some && bios_path is Some
        && bios_load_addr is Some && dtb_path is Some && dtb_load_addr is Some
        && ramdisk_path is Some && ramdisk_load_addr is Some && image_location is Some
        && cmdline is Some && disk_path is Some && memory_regions is Some {
        Some(
            VMKernelView {
                entry_point: entry_point.unwrap(),
                kernel_path: kernel_path.unwrap(),
                kernel_load_addr: kernel_load_addr.unwrap(),
                bios_path: bios_path.unwrap(),
                bios_load_addr: bios_load_addr.unwrap(),
                dtb_path: dtb_path.unwrap(),
                dtb_load_addr: dtb_load_addr.unwrap(),
                ramdisk_path: ramdisk_path.unwrap(),
                ramdisk_load_addr: ramdisk_load_addr.unwrap(),
                image_location: image_location.unwrap(),
                cmdline: cmdline.unwrap(),
                disk_path: disk_path.unwrap(),
                memory_regions: memory_regions.unwrap(),
            },
        )
    } else {
        None
    }
}

/// The emulated devices of a devices record: a mandatory field.
pub open spec fn emulated_devices_field_of(record: Value) -> Option<Seq<EmulatedDeviceView>> {
    match record.field(0, "emu_devices"@) {
        Some(v) => emulated_devices_of(v),
        None => None,
    }
}

/// The passed-through devices of a devices record: a mandatory field.
pub open spec fn passthrough_devices_field_of(record: Value) -> Option<
    Seq<PassThroughDeviceView>,
> {
    match record.field(1, "passthrough_devices"@) {
        Some(v) => passthrough_devices_of(v),
        None => None,
    }
}

/// The devices description that a value holds: `emu_devices` and
/// `passthrough_devices` are mandatory; `interrupt_mode` is `NoIrq` where absent.
pub open spec fn devices_of(value: Value) -> Option<VMDevicesView> {
    let emu_devices = emulated_devices_field_of(value);
    let passthrough_devices = passthrough_devices_field_of(value);
    let interrupt_mode = interrupt_mode_field_of(value);
    if emu_devices is Some && passthrough_devices is Some && interrupt_mode is Some {
        Some(
            VMDevicesView {
                emu_devices: emu_devices.unwrap(),
                passthrough_devices: passthrough_devices.unwrap(),
                interrupt_mode: interrupt_mode.unwrap(),
            },
        )
    } else {
        None
    }
}

/// The base record of a document.
pub open spec fn base_field_of(document: Value) -> Option<VMBaseView> {
    match document.field(0, "base"@) {
        Some(v) => base_of(v),
        None => None,
    }
}

/// The kernel record of a document.
pub open spec fn kernel_field_of(document: Value) -> Option<VMKernelView> {
    match document.field(1, "kernel"@) {
        Some(v) => kernel_of(v),
        None => None,
    }
}

/// The devices record of a document.
pub open spec fn devices_field_of(document: Value) -> Option<VMDevicesView> {
    match document.field(2, "devices"@) {
        Some(v) => devices_of(v),
        None => None,
    }
}

/// The VM description that a document holds: its records `base`, `kernel`
/// and `devices`, all mandatory. `None` where the document does not fit the
/// schema.
pub open spec fn config_of(document: Value) -> Option<AxVMCrateView> {
    let base = base_field_of(document);
    let kernel = kernel_field_of(document);
    let devices = devices_field_of(document);
    if base is Some && kernel is Some && devices is Some {
        Some(
            AxVMCrateView {
                base: base.unwrap(),
                kernel: kernel.unwrap(),
                devices: devices.unwrap(),
            },
        )
    } else {
        None
    }
}

/// Reads a memory region.
pub fn read_mem_region(value: &Value) -> (r: Option<VmMemConfig>)
    ensures
        r == mem_region_of(*value),
{
    let gpa = match required_usize(value, 0, "gpa") {
        Some(x) => x,
        None => { return None; },
    };
    let size = match required_usize(value, 1, "size") {
        Some(x) => x,
        None => { return None; },
    };
    let flags = match required_usize(value, 2, "flags") {
        Some(x) => x,
        None => { return None; },
    };
    let code = match required_code(value, 3, "map_type") {
        Some(x) => x,
        None => { return None; },
    };
    Some(VmMemConfig { gpa, size, flags, map_type: VmMemMappingType::from_u8(code) })
}

/// Reads an emulated device.
pub fn read_emulated_device(value: &Value) -> (r: Option<EmulatedDeviceConfig>)
    ensures
        match r {
            Some(device) => emulated_device_of(*value) == Some(device@),
            None => emulated_device_of(*value) is None,
        },
{
    let name = match required_text(value, 0, "name") {
        Some(x) => x,
        None => { return None; },
    };
    let base_gpa = match required_usize(value, 1, "base_gpa") {
        Some(x) => x,
        None => { return None; },
    };
    let length = match required_usize(value, 2, "length") {
        Some(x) => x,
        None => { return None; },
    };
    let irq_id = match required_usize(value, 3, "irq_id") {
        Some(x) => x,
        None => { return None; },
    };
    let code = match required_code(value, 4, "emu_type") {
        Some(x) => x,
        None => { return None; },
    };
    let cfg_list = match required_usize_list(value, 5, "cfg_list") {
        Some(x) => x,
        None => { return None; },
    };
    let emu_type = EmulatedDeviceType::from_usize(code as usize);
    Some(EmulatedDeviceConfig { name, base_gpa, length, irq_id, emu_type, cfg_list })
}

/// Reads a passed-through device.
pub fn read_passthrough_device(value: &Value) -> (r: Option<PassThroughDeviceConfig>)
    ensures
        match r {
            Some(device) => passthrough_device_of(*value) == Some(device@),
            None => passthrough_device_of(*value) is None,
        },
{
    let name = match required_text(value, 0, "name") {
        Some(x) => x,
        None => { return None; },
    };
    let base_gpa = match required_usize(value, 1, "base_gpa") {
        Some(x) => x,
        None => { return None; },
    };
    let base_hpa = match required_usize(value, 2, "base_hpa") {
        Some(x) => x,
        None => { return None; },
    };
    let length = match required_usize(value, 3, "length") {
        Some(x) => x,
        None => { return None; },
    };
    let irq_id = match required_usize(value, 4, "irq_id") {
        Some(x) => x,
        None => { return None; },
    };
    Some(PassThroughDeviceConfig { name, base_gpa, base_hpa, length, irq_id })
}

/// Reads a list of memory regions.
pub fn read_mem_regions(value: &Value) -> (r: Option<Vec<VmMemConfig>>)
    ensures
        match r {
            Some(list) => mem_regions_of(*value) == Some(list@),
            None => mem_regions_of(*value) is None,
        },
{
    match value {
        Value::Array(items) => {
            let mut list: Vec<VmMemConfig> = Vec::new();
            let mut i: usize = 0;
            while i < items.len()
                invariant
                    *value == Value::Array(*items),
                    i <= items@.len(),
                    list@.len() == i,
                    forall|k: int|
                        0 <= k < i ==> (#[trigger] mem_region_of(items@[k])) == Some(list@[k]),
                decreases items@.len() - i,
            {
                match read_mem_region(&items[i]) {
                    Some(region) => {
                        list.push(region);
                    },
                    None => {
                        assert(mem_region_of(items@[i as int]) is None);
                        return None;
                    },
                }
                i = i + 1;
            }
            assert(list@ =~= Seq::new(items@.len(), |i: int| mem_region_of(items@[i]).unwrap()));
            Some(list)
        },
        _ => None,
    }
}

/// Reads a list of emulated devices.
pub fn read_emulated_devices(value: &Value) -> (r: Option<Vec<EmulatedDeviceConfig>>)
    ensures
        match r {
            Some(list) => emulated_devices_of(*value) == Some(emulated_views(list@)),
            None => emulated_devices_of(*value) is None,
        },
{
    match value {
        Value::Array(items) => {
            let mut list: Vec<EmulatedDeviceConfig> = Vec::new();
            let mut i: usize = 0;
            while i < items.len()
                invariant
                    *value == Value::Array(*items),
                    i <= items@.len(),
                    list@.len() == i,
                    forall|k: int|
                        0 <= k < i ==> (#[trigger] emulated_device_of(items@[k])) == Some(
                            list@[k]@,
                        ),
                decreases items@.len() - i,
            {
                match read_emulated_device(&items[i]) {
                    Some(device) => {
                        list.push(device);
                    },
                    None => {
                        assert(emulated_device_of(items@[i as int]) is None);
                        return None;
                    },
                }
                i = i + 1;
            }
            assert(emulated_views(list@) =~= Seq::new(
                items@.len(),
                |i: int| emulated_device_of(items@[i]).unwrap(),
            ));
            Some(list)
        },
        _ => None,
    }
}

/// Reads a list of passed-through devices.
pub fn read_passthrough_devices(value: &Value) -> (r: Option<Vec<PassThroughDeviceConfig>>)
    ensures
        match r {
            Some(list) => passthrough_devices_of(*value) == Some(passthrough_views(list@)),
            None => passthrough_devices_of(*value) is None,
        },
{
    match value {
        Value::Array(items) => {
            let mut list: Vec<PassThroughDeviceConfig> = Vec::new();
            let mut i: usize = 0;
            while i < items.len()
                invariant
                    *value == Value::Array(*items),
                    i <= items@.len(),
                    list@.len() == i,
                    forall|k: int|
                        0 <= k < i ==> (#[trigger] passthrough_device_of(items@[k])) == Some(
                            list@[k]@,
                        ),
                decreases items@.len() - i,
            {
                match read_passthrough_device(&items[i]) {
                    Some(device) => {
                        list.push(device);
                    },
                    None => {
                        assert(passthrough_device_of(items@[i as int]) is None);
                        return None;
                    },
                }
                i = i + 1;
            }
            assert(passthrough_views(list@) =~= Seq::new(
                items@.len(),
                |i: int| passthrough_device_of(items@[i]).unwrap(),
            ));
            Some(list)
        },
        _ => None,
    }
}

/// Tells whether a value is an empty array or an empty table.
pub fn holds_nothing(value: &Value) -> (r: bool)
    ensures
        r == is_unit(*value),
{
    match value {
        Value::Array(items) => items.len() == 0,
        Value::Table(entries) => entries.len() == 0,
        _ => false,
    }
}

/// Reads an interrupt mode.
pub fn read_interrupt_mode(value: &Value) -> (r: Option<VMInterruptMode>)
    ensures
        r == interrupt_mode_of(*value),
{
    match value {
        Value::String(name) => VMInterruptMode::from_name(name),
        Value::Table(entries) => if entries.len() == 1 && holds_nothing(&entries[0].1) {
            VMInterruptMode::from_name(&entries[0].0)
        } else {
            None
        },
        _ => None,
    }
}

impl VMBaseConfig {
    /// Reads a base description from a record.
    pub fn from_document(value: &Value) -> (r: Option<VMBaseConfig>)
        ensures
            match r {
                Some(base) => base_of(*value) == Some(base@),
                None => base_of(*value) is None,
            },
    {
        let id = match required_usize(value, 0, "id") {
            Some(x) => x,
            None => { return None; },
        };
        let name = match required_text(value, 1, "name") {
            Some(x) => x,
            None => { return None; },
        };
        let vm_type = match required_usize(value, 2, "vm_type") {
            Some(x) => x,
            None => { return None; },
        };
        let cpu_num = match required_usize(value, 3, "cpu_num") {
            Some(x) => x,
            None => { return None; },
        };
        let phys_cpu_ids = match optional_usize_list(value, 4, "phys_cpu_ids") {
            Some(x) => x,
            None => { return None; },
        };
        let phys_cpu_sets = match optional_usize_list(value, 5, "phys_cpu_sets") {
            Some(x) => x,
            None => { return None; },
        };
        Some(VMBaseConfig { id, name, vm_type, cpu_num, phys_cpu_ids, phys_cpu_sets })
    }
}

impl VMKernelConfig {
    /// Reads a kernel description from a record.
    pub fn from_document(value: &Value) -> (r: Option<VMKernelConfig>)
        ensures
            match r {
                Some(kernel) => kernel_of(*value) == Some(kernel@),
                None => kernel_of(*value) is None,
            },
    {
        let entry_point = match required_usize(value, 0, "entry_point") {
            Some(x) => x,
            None => { return None; },
        };
        let kernel_path = match required_text(value, 1, "kernel_path") {
            Some(x) => x,
            None => { return None; },
        };
        let kernel_load_addr = match required_usize(value, 2, "kernel_load_addr") {
            Some(x) => x,
            None => { return None; },
        };
        let bios_path = match optional_text(value, 3, "bios_path") {
            Some(x) => x,
            None => { return None; },
        };
        let bios_load_addr = match optional_usize(value, 4, "bios_load_addr") {
            Some(x) => x,
            None => { return None; },
        };
        let dtb_path = match optional_text(value, 5, "dtb_path") {
            Some(x) => x,
            None => { return None; },
        };
        let dtb_load_addr = match optional_usize(value, 6, "dtb_load_addr") {
            Some(x) => x,
            None => { return None; },
        };
        let ramdisk_path = match optional_text(value, 7, "ramdisk_path") {
            Some(x) => x,
            None => { return None; },
        };
        let ramdisk_load_addr = match optional_usize(value, 8, "ramdisk_load_addr") {
            Some(x) => x,
            None => { return None; },
        };
        let image_location = match optional_text(value, 9, "image_location") {
            Some(x) => x,
            None => { return None; },
        };
        let cmdline = match optional_text(value, 10, "cmdline") {
            Some(x) => x,
            None => { return None; },
        };
        let disk_path = match optional_text(value, 11, "disk_path") {
            Some(x) => x,
            None => { return None; },
        };
        let memory_regions = match value.get_field(12, "memory_regions") {
            Some(v) => match read_mem_regions(v) {
                Some(x) => x,
                None => { return None; },
            },
            None => { return None; },
        };
        Some(
            VMKernelConfig {
                entry_point,
                kernel_path,
                kernel_load_addr,
                bios_path,
                bios_load_addr,
                dtb_path,
                dtb_load_addr,
                ramdisk_path,
                ramdisk_load_addr,
                image_location,
                cmdline,
                disk_path,
                memory_regions,
            },
        )
    }
}

impl VMDevicesConfig {
    /// Reads a devices description from a record.
    pub fn from_document(value: &Value) -> (r: Option<VMDevicesConfig>)
        ensures
            match r {
                Some(devices) => devices_of(*value) == Some(devices@),
                None => devices_of(*value) is None,
            },
    {
        let emu_devices = match value.get_field(0, "emu_devices") {
            Some(v) => match read_emulated_devices(v) {
                Some(x) => x,
                None => { return None; },
            },
            None => { return None; },
        };
        let passthrough_devices = match value.get_field(1, "passthrough_devices") {
            Some(v) => match read_passthrough_devices(v) {
                Some(x) => x,
                None => { return None; },
            },
            None => { return None; },
        };
        let interrupt_mode = match value.get_field(2, "interrupt_mode") {
            Some(v) => match read_interrupt_mode(v) {
                Some(x) => x,
                None => { return None; },
            },
            None => VMInterruptMode::NoIrq,
        };
        Some(VMDevicesConfig { emu_devices, passthrough_devices, interrupt_mode })
    }

    /// Reads a devices description from a TOML text whose top level is the
    /// devices record. Succeeds exactly where the text is well-formed TOML
    /// and its document fits the record.
    pub fn from_toml(text: &str) -> (r: Result<VMDevicesConfig, ConfigError>)
        ensures
            match toml_document(text@) {
                Err(words) => r matches Err(e) && e.text() == words,
                Ok(document) => match devices_of(document) {
                    Some(devices) => r matches Ok(read) && read@ == devices,
                    None => r matches Err(e) && e.text() == mismatch_text(),
                },
            },
    {
        match parse_table(text) {
            Ok(table) => {
                let document = lower(table);
                match VMDevicesConfig::from_document(&document) {
                    Some(devices) => Ok(devices),
                    None => Err(mismatch()),
                }
            },
            Err(error) => Err(ConfigError::InvalidInput(error_message(&error))),
        }
    }
}

impl AxVMCrateConfig {
    /// Reads a VM description from a document: all of it, or an error.
    pub fn from_document(document: &Value) -> (r: Result<AxVMCrateConfig, ConfigError>)
        ensures
            match config_of(*document) {
                Some(config) => r matches Ok(read) && read@ == config,
                None => r matches Err(e) && e.text() == mismatch_text(),
            },
    {
        let base = match document.get_field(0, "base") {
            Some(v) => match VMBaseConfig::from_document(v) {
                Some(x) => x,
                None => { return Err(mismatch()); },
            },
            None => { return Err(mismatch()); },
        };
        let kernel = match document.get_field(1, "kernel") {
            Some(v) => match VMKernelConfig::from_document(v) {
                Some(x) => x,
                None => { return Err(mismatch()); },
            },
            None => { return Err(mismatch()); },
        };
        let devices = match document.get_field(2, "devices") {
            Some(v) => match VMDevicesConfig::from_document(v) {
                Some(x) => x,
                None => { return Err(mismatch()); },
            },
            None => { return Err(mismatch()); },
        };
        Ok(AxVMCrateConfig { base, kernel, devices })
    }

    /// Reads a VM description from a TOML text. Succeeds exactly where the
    /// text is well-formed TOML and its document fits the schema; the
    /// description is then the one that the document holds. Otherwise the
    /// error carries the parser's words, or those of a schema mismatch.
    pub fn from_toml(raw_cfg_str: &str) -> (r: Result<AxVMCrateConfig, ConfigError>)
        ensures
            match toml_document(raw_cfg_str@) {
                Err(words) => r matches Err(e) && e.text() == words,
                Ok(document) => match config_of(document) {
                    Some(config) => r matches Ok(read) && read@ == config,
                    None => r matches Err(e) && e.text() == mismatch_text(),
                },
            },
    {
        match parse_table(raw_cfg_str) {
            Ok(table) => {
                let document = lower(table);
                AxVMCrateConfig::from_document(&document)
            },
            Err(error) => Err(ConfigError::InvalidInput(error_message(&error))),
        }
    }
}

/// In a devices record whose device lists are readable, an interrupt mode
/// given as a string reads as `Emulated` for "emulated" and "emu", as
/// `Passthrough` for "passthrough" and "pt", and as `NoIrq` for "no_irq",
/// "no" and "none"; any other string makes the record unreadable.
pub proof fn lemma_interrupt_mode_aliases(record: Value, name: String)
    requires
        record.field(2, "interrupt_mode"@) == Some(Value::String(name)),
        emulated_devices_field_of(record) is Some,
        passthrough_devices_field_of(record) is Some,
    ensures
        name@ == "emulated"@ || name@ == "emu"@ ==> devices_of(record) is Some && devices_of(
            record,
        ).unwrap().interrupt_mode == VMInterruptMode::Emulated,
        name@ == "passthrough"@ || name@ == "pt"@ ==> devices_of(record) is Some && devices_of(
            record,
        ).unwrap().interrupt_mode == VMInterruptMode::Passthrough,
        name@ == "no_irq"@ || name@ == "no"@ || name@ == "none"@ ==> devices_of(record) is Some
            && devices_of(record).unwrap().interrupt_mode == VMInterruptMode::NoIrq,
        !(name@ == "emulated"@ || name@ == "emu"@ || name@ == "passthrough"@ || name@ == "pt"@
            || name@ == "no_irq"@ || name@ == "no"@ || name@ == "none"@) ==> devices_of(record)
            is None,
{
    reveal_strlit("no_irq");
    reveal_strlit("no");
    reveal_strlit("none");
    reveal_strlit("emu");
    reveal_strlit("emulated");
    reveal_strlit("passthrough");
    reveal_strlit("pt");
    assert("no_irq"@.len() == 6 && "no"@.len() == 2 && "none"@.len() == 4);
    assert("emu"@.len() == 3 && "emulated"@.len() == 8);
    assert("passthrough"@.len() == 11 && "pt"@.len() == 2);
    assert("no"@[0] == 'n' && "pt"@[0] == 'p');
}

/// A devices record that gives no interrupt mode, and whose device lists are
/// readable, is read with `NoIrq`.
pub proof fn lemma_interrupt_mode_absent(record: Value)
    requires
        record.field(2, "interrupt_mode"@) is None,
        emulated_devices_field_of(record) is Some,
        passthrough_devices_field_of(record) is Some,
    ensures
        devices_of(record) is Some,
        devices_of(record).unwrap().interrupt_mode == VMInterruptMode::NoIrq,
{
}

/// Whether a record is a table that holds none of the optional fields of a
/// base description.
pub open spec fn bare_base(record: Value) -> bool {
    &&& record is Table
    &&& record.field(4, "phys_cpu_ids"@) is None
    &&& record.field(5, "phys_cpu_sets"@) is None
}

/// Whether a record is a table that holds none of the optional fields of a
/// kernel description.
pub open spec fn bare_kernel(record: Value) -> bool {
    &&& record is Table
    &&& record.field(3, "bios_path"@) is None
    &&& record.field(4, "bios_load_addr"@) is None
    &&& record.field(5, "dtb_path"@) is None
    &&& record.field(6, "dtb_load_addr"@) is None
    &&& record.field(7, "ramdisk_path"@) is None
    &&& record.field(8, "ramdisk_load_addr"@) is None
    &&& record.field(9, "image_location"@) is None
    &&& record.field(10, "cmdline"@) is None
    &&& record.field(11, "disk_path"@) is None
}

/// A readable document that holds the mandatory fields only is read with
/// every optional field absent and with `NoIrq`; where its lists are empty
/// and its numbers 0, with what a description has by default in every field
/// but the two names.
pub proof fn lemma_structural_defaults(document: Value)
    requires
        config_of(document) is Some,
        bare_base(document.field(0, "base"@).unwrap()),
        bare_kernel(document.field(1, "kernel"@).unwrap()),
        document.field(2, "devices"@).unwrap().field(2, "interrupt_mode"@) is None,
    ensures
        ({
            let config = config_of(document).unwrap();
            &&& config.base.phys_cpu_ids is None
            &&& config.base.phys_cpu_sets is None
            &&& config.kernel.bios_path is None
            &&& config.kernel.bios_load_addr is None
            &&& config.kernel.dtb_path is None
            &&& config.kernel.dtb_load_addr is None
            &&& config.kernel.ramdisk_path is None
            &&& config.kernel.ramdisk_load_addr is None
            &&& config.kernel.image_location is None
            &&& config.kernel.cmdline is None
            &&& config.kernel.disk_path is None
            &&& config.devices.interrupt_mode == VMInterruptMode::NoIrq
            &&& (config.base.id == 0 && config.base.vm_type == 0 && config.base.cpu_num == 0
                && config.kernel.entry_point == 0 && config.kernel.kernel_load_addr == 0
                && config.kernel.memory_regions.len() == 0
                && config.devices.emu_devices.len() == 0
                && config.devices.passthrough_devices.len() == 0) ==> config == (AxVMCrateView {
                base: VMBaseView { name: config.base.name, ..VMBaseView::empty() },
                kernel: VMKernelView {
                    kernel_path: config.kernel.kernel_path,
                    ..VMKernelView::empty()
                },
                devices: VMDevicesView::empty(),
            })
        }),
{
    let config = config_of(document).unwrap();
    assert(config.kernel.memory_regions.len() == 0 ==> config.kernel.memory_regions
        =~= Seq::empty());
    assert(config.devices.emu_devices.len() == 0 ==> config.devices.emu_devices =~= Seq::empty());
    assert(config.devices.passthrough_devices.len() == 0 ==> config.devices.passthrough_devices
        =~= Seq::empty());
}

/// A numeric code never makes a record unreadable by its value alone: a
/// memory region with three addresses and any 8-bit type code is readable,
/// and its type is the code's variant, or `MapAlloc` where there is none.
pub proof fn lemma_region_code_never_fails(record: Value, code: u8)
    requires
        required_usize_of(record, 0, "gpa"@) is Some,
        required_usize_of(record, 1, "size"@) is Some,
        required_usize_of(record, 2, "flags"@) is Some,
        required_code_of(record, 3, "map_type"@) == Some(code),
    ensures
        mem_region_of(record) is Some,
        mem_region_of(record).unwrap().map_type == VmMemMappingType::decoded(code),
        code > 1 ==> mem_region_of(record).unwrap().map_type == VmMemMappingType::MapAlloc,
{
}

} // verus!
