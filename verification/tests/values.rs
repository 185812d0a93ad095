use axvmconfig::document::{find, Value};
use axvmconfig::fields::{read_code, read_text, read_usize, read_usize_list};
use axvmconfig::{
    AxVMCrateConfig, ConfigError, EmulatedDeviceType, VMBaseConfig, VMDevicesConfig,
    VMInterruptMode, VMKernelConfig, VmMemMappingType,
};

fn num(n: i128) -> Value {
    Value::Integer(Some(n))
}

fn txt(s: &str) -> Value {
    Value::String(s.to_string())
}

fn table(entries: Vec<(&str, Value)>) -> Value {
    Value::Table(
        entries
            .into_iter()
            .map(|(k, v)| (k.to_string(), v))
            .collect(),
    )
}

fn base() -> Value {
    table(vec![
        ("id", num(1)),
        ("name", txt("vm")),
        ("vm_type", num(2)),
        ("cpu_num", num(4)),
    ])
}

fn kernel() -> Value {
    table(vec![
        ("entry_point", num(0x1000)),
        ("kernel_path", txt("k.bin")),
        ("kernel_load_addr", num(0x2000)),
        ("memory_regions", Value::Array(vec![])),
    ])
}

fn devices() -> Value {
    table(vec![
        ("emu_devices", Value::Array(vec![])),
        ("passthrough_devices", Value::Array(vec![])),
    ])
}

#[test]
fn scalars_are_read_by_type_and_range() {
    assert_eq!(read_usize(&num(0)), Some(0));
    assert_eq!(read_usize(&num(u64::MAX as i128)), Some(usize::MAX));
    assert_eq!(read_usize(&num(u64::MAX as i128 + 1)), None);
    assert_eq!(read_usize(&num(-1)), None);
    assert_eq!(read_usize(&Value::Integer(None)), None);
    assert_eq!(read_usize(&txt("1")), None);
    assert_eq!(read_usize(&Value::Float), None);
    assert_eq!(read_usize(&Value::Boolean(true)), None);
    assert_eq!(read_code(&num(255)), Some(255));
    assert_eq!(read_code(&num(256)), None);
    assert_eq!(read_code(&num(-1)), None);
    assert_eq!(read_text(&txt("abc")), Some("abc".to_string()));
    assert_eq!(read_text(&num(1)), None);
    assert_eq!(read_text(&Value::Datetime), None);
    assert_eq!(
        read_usize_list(&Value::Array(vec![num(3), num(4)])),
        Some(vec![3, 4])
    );
    assert_eq!(read_usize_list(&Value::Array(vec![])), Some(vec![]));
    assert_eq!(read_usize_list(&Value::Array(vec![num(3), txt("4")])), None);
    assert_eq!(read_usize_list(&num(3)), None);
}

#[test]
fn the_first_entry_under_a_key_is_found() {
    let entries = vec![
        ("a".to_string(), num(1)),
        ("b".to_string(), num(2)),
        ("a".to_string(), num(3)),
    ];
    assert!(matches!(find(&entries, "a"), Some(Value::Integer(Some(1)))));
    assert!(matches!(find(&entries, "b"), Some(Value::Integer(Some(2)))));
    assert!(find(&entries, "c").is_none());
    assert!(find(&entries, "").is_none());
}

#[test]
fn a_document_built_by_hand_is_read() {
    let document = table(vec![
        ("devices", devices()),
        ("kernel", kernel()),
        ("base", base()),
        ("extra", num(1)),
    ]);
    let config = AxVMCrateConfig::from_document(&document).unwrap();
    assert_eq!(config.base.id, 1);
    assert_eq!(config.base.name, "vm");
    assert_eq!(config.base.vm_type, 2);
    assert_eq!(config.base.cpu_num, 4);
    assert_eq!(config.base.phys_cpu_ids, None);
    assert_eq!(config.base.phys_cpu_sets, None);
    assert_eq!(config.kernel.entry_point, 0x1000);
    assert_eq!(config.kernel.kernel_path, "k.bin");
    assert_eq!(config.kernel.kernel_load_addr, 0x2000);
    assert!(config.kernel.memory_regions.is_empty());
    assert!(config.devices.emu_devices.is_empty());
    assert!(config.devices.passthrough_devices.is_empty());
    assert_eq!(config.devices.interrupt_mode, VMInterruptMode::NoIrq);
}

#[test]
fn a_document_without_a_record_is_invalid_input() {
    let document = table(vec![("kernel", kernel()), ("base", base())]);
    let error = AxVMCrateConfig::from_document(&document).unwrap_err();
    assert!(matches!(error, ConfigError::InvalidInput(_)));
    assert_eq!(
        error.message(),
        "the document does not match the VM configuration schema"
    );
    assert!(AxVMCrateConfig::from_document(&num(1)).is_err());
    assert!(AxVMCrateConfig::from_document(&Value::Datetime).is_err());
}

#[test]
fn records_are_read_by_position_from_arrays() {
    let record = Value::Array(vec![
        num(9),
        txt("n"),
        num(0),
        num(1),
        Value::Array(vec![num(5)]),
        Value::Array(vec![num(6)]),
    ]);
    let base = VMBaseConfig::from_document(&record).unwrap();
    assert_eq!(base.id, 9);
    assert_eq!(base.name, "n");
    assert_eq!(base.vm_type, 0);
    assert_eq!(base.cpu_num, 1);
    assert_eq!(base.phys_cpu_ids, Some(vec![5]));
    assert_eq!(base.phys_cpu_sets, Some(vec![6]));

    let short = Value::Array(vec![num(9), txt("n"), num(0), num(1)]);
    assert!(VMBaseConfig::from_document(&short).is_none());

    let record = Value::Array(vec![Value::Array(vec![]), Value::Array(vec![])]);
    let devices = VMDevicesConfig::from_document(&record).unwrap();
    assert_eq!(devices.interrupt_mode, VMInterruptMode::NoIrq);
    let record = Value::Array(vec![Value::Array(vec![]), Value::Array(vec![]), txt("emu")]);
    let devices = VMDevicesConfig::from_document(&record).unwrap();
    assert_eq!(devices.interrupt_mode, VMInterruptMode::Emulated);
}

#[test]
fn kernel_options_are_independent() {
    let record = table(vec![
        ("entry_point", num(1)),
        ("kernel_path", txt("k")),
        ("kernel_load_addr", num(2)),
        ("bios_path", txt("bios.bin")),
        ("ramdisk_load_addr", num(0x9000)),
        ("cmdline", txt("quiet")),
        ("disk_path", txt("disk.img")),
        (
            "memory_regions",
            Value::Array(vec![
                Value::Array(vec![num(1), num(2), num(3), num(0)]),
                Value::Array(vec![num(4), num(5), num(6), num(1)]),
            ]),
        ),
    ]);
    let kernel = VMKernelConfig::from_document(&record).unwrap();
    assert_eq!(kernel.bios_path, Some("bios.bin".to_string()));
    assert_eq!(kernel.bios_load_addr, None);
    assert_eq!(kernel.ramdisk_path, None);
    assert_eq!(kernel.ramdisk_load_addr, Some(0x9000));
    assert_eq!(kernel.cmdline, Some("quiet".to_string()));
    assert_eq!(kernel.disk_path, Some("disk.img".to_string()));
    assert_eq!(kernel.memory_regions.len(), 2);
    assert_eq!(kernel.memory_regions[0].map_type, VmMemMappingType::MapAlloc);
    assert_eq!(kernel.memory_regions[1].gpa, 4);
    assert_eq!(kernel.memory_regions[1].size, 5);
    assert_eq!(kernel.memory_regions[1].flags, 6);
    assert_eq!(
        kernel.memory_regions[1].map_type,
        VmMemMappingType::MapIdentical
    );
}

#[test]
fn emulated_devices_keep_their_order_and_settings() {
    let record = table(vec![
        (
            "emu_devices",
            Value::Array(vec![
                Value::Array(vec![
                    txt("a"),
                    num(1),
                    num(2),
                    num(3),
                    num(0xE1),
                    Value::Array(vec![num(7), num(8)]),
                ]),
                Value::Array(vec![
                    txt("b"),
                    num(4),
                    num(5),
                    num(6),
                    num(0x20),
                    Value::Array(vec![]),
                ]),
            ]),
        ),
        ("passthrough_devices", Value::Array(vec![])),
        ("interrupt_mode", txt("pt")),
    ]);
    let devices = VMDevicesConfig::from_document(&record).unwrap();
    assert_eq!(devices.emu_devices.len(), 2);
    assert_eq!(devices.emu_devices[0].name, "a");
    assert_eq!(devices.emu_devices[0].base_gpa, 1);
    assert_eq!(devices.emu_devices[0].length, 2);
    assert_eq!(devices.emu_devices[0].irq_id, 3);
    assert_eq!(devices.emu_devices[0].emu_type, EmulatedDeviceType::VirtioBlk);
    assert_eq!(devices.emu_devices[0].cfg_list, vec![7, 8]);
    assert_eq!(devices.emu_devices[1].name, "b");
    assert_eq!(
        devices.emu_devices[1].emu_type,
        EmulatedDeviceType::GPPTRedistributor
    );
    assert_eq!(devices.interrupt_mode, VMInterruptMode::Passthrough);
}

#[test]
fn descriptions_compare_field_by_field() {
    let document = table(vec![
        ("base", base()),
        ("kernel", kernel()),
        ("devices", devices()),
    ]);
    let first = AxVMCrateConfig::from_document(&document).unwrap();
    let second = AxVMCrateConfig::from_document(&document).unwrap();
    assert_eq!(first, second);
    assert_eq!(first.clone(), first);
    let mut third = first.clone();
    third.kernel.cmdline = Some("x".to_string());
    assert_ne!(first, third);
    assert_eq!(AxVMCrateConfig::default(), AxVMCrateConfig::default());
    assert_ne!(first, AxVMCrateConfig::default());
}
