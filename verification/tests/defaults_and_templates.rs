use axvmconfig::{
    get_vm_config_template, AxVMCrateConfig, EmulatedDeviceConfig, EmulatedDeviceType,
    PassThroughDeviceConfig, VMBaseConfig, VMDevicesConfig, VMInterruptMode, VMKernelConfig,
    VMType, VmMemConfig, VmMemMappingType,
};

#[test]
fn test_default_implementations() {
    assert_eq!(VMType::default(), VMType::VMTRTOS);
    assert_eq!(VmMemMappingType::default(), VmMemMappingType::MapAlloc);
    assert_eq!(EmulatedDeviceType::default(), EmulatedDeviceType::Dummy);
    assert_eq!(VMInterruptMode::default(), VMInterruptMode::NoIrq);

    let vm_mem_config = VmMemConfig::default();
    assert_eq!(vm_mem_config.gpa, 0);
    assert_eq!(vm_mem_config.size, 0);
    assert_eq!(vm_mem_config.flags, 0);
    assert_eq!(vm_mem_config.map_type, VmMemMappingType::MapAlloc);

    let emu_device_config = EmulatedDeviceConfig::default();
    assert_eq!(emu_device_config.name, "");
    assert_eq!(emu_device_config.base_gpa, 0);
    assert_eq!(emu_device_config.length, 0);
    assert_eq!(emu_device_config.irq_id, 0);
    assert_eq!(emu_device_config.emu_type, EmulatedDeviceType::Dummy);
    assert!(emu_device_config.cfg_list.is_empty());

    let passthrough_device_config = PassThroughDeviceConfig::default();
    assert_eq!(passthrough_device_config.name, "");
    assert_eq!(passthrough_device_config.base_gpa, 0);
    assert_eq!(passthrough_device_config.base_hpa, 0);
    assert_eq!(passthrough_device_config.length, 0);
    assert_eq!(passthrough_device_config.irq_id, 0);

    let vm_base_config = VMBaseConfig::default();
    assert_eq!(vm_base_config.id, 0);
    assert_eq!(vm_base_config.name, "");
    assert_eq!(vm_base_config.vm_type, 0);
    assert_eq!(vm_base_config.cpu_num, 0);
    assert!(vm_base_config.phys_cpu_ids.is_none());
    assert!(vm_base_config.phys_cpu_sets.is_none());

    let vm_kernel_config = VMKernelConfig::default();
    assert_eq!(vm_kernel_config.entry_point, 0);
    assert_eq!(vm_kernel_config.kernel_path, "");
    assert_eq!(vm_kernel_config.kernel_load_addr, 0);
    assert!(vm_kernel_config.bios_path.is_none());
    assert!(vm_kernel_config.bios_load_addr.is_none());
    assert!(vm_kernel_config.dtb_path.is_none());
    assert!(vm_kernel_config.dtb_load_addr.is_none());
    assert!(vm_kernel_config.ramdisk_path.is_none());
    assert!(vm_kernel_config.ramdisk_load_addr.is_none());
    assert!(vm_kernel_config.image_location.is_none());
    assert!(vm_kernel_config.cmdline.is_none());
    assert!(vm_kernel_config.disk_path.is_none());
    assert!(vm_kernel_config.memory_regions.is_empty());

    let vm_devices_config = VMDevicesConfig::default();
    assert!(vm_devices_config.emu_devices.is_empty());
    assert!(vm_devices_config.passthrough_devices.is_empty());
    assert_eq!(vm_devices_config.interrupt_mode, VMInterruptMode::NoIrq);

    let axvm_crate_config = AxVMCrateConfig::default();
    assert_eq!(axvm_crate_config.base.id, 0);
    assert_eq!(axvm_crate_config.kernel.entry_point, 0);
    assert!(axvm_crate_config.devices.emu_devices.is_empty());
}

#[test]
fn template_counts_cpu_ids_up_from_zero() {
    let config = get_vm_config_template(
        7,
        "guest-aarch64".to_string(),
        2,
        3,
        0x8020_0000,
        "".to_string(),
        0x8020_0000,
        "fs".to_string(),
        None,
    );
    assert_eq!(config.base.phys_cpu_ids, Some(vec![0, 1, 2]));
    assert_eq!(config.base.phys_cpu_sets, None);
    assert_eq!(config.base.id, 7);
    assert_eq!(config.base.name, "guest-aarch64");
    assert_eq!(config.base.vm_type, 2);
    assert_eq!(config.base.cpu_num, 3);
    assert_eq!(config.kernel.entry_point, 0x8020_0000);
    assert_eq!(config.kernel.kernel_path, "");
    assert_eq!(config.kernel.kernel_load_addr, 0x8020_0000);
    assert_eq!(config.kernel.image_location, Some("fs".to_string()));
    assert_eq!(config.kernel.cmdline, None);
    assert!(config.kernel.bios_path.is_none());
    assert!(config.kernel.bios_load_addr.is_none());
    assert!(config.kernel.dtb_path.is_none());
    assert!(config.kernel.dtb_load_addr.is_none());
    assert!(config.kernel.ramdisk_path.is_none());
    assert!(config.kernel.ramdisk_load_addr.is_none());
    assert!(config.kernel.disk_path.is_none());
    assert!(config.kernel.memory_regions.is_empty());
    assert!(config.devices.emu_devices.is_empty());
    assert!(config.devices.passthrough_devices.is_empty());
    assert_eq!(config.devices.interrupt_mode, VMInterruptMode::NoIrq);
}

#[test]
fn template_without_cpus_and_with_cmdline() {
    let config = get_vm_config_template(
        0,
        "n".to_string(),
        1,
        0,
        1,
        "k.bin".to_string(),
        2,
        "memory".to_string(),
        Some("console=ttyS0".to_string()),
    );
    assert_eq!(config.base.phys_cpu_ids, Some(vec![]));
    assert_eq!(config.base.phys_cpu_sets, None);
    assert_eq!(config.kernel.cmdline, Some("console=ttyS0".to_string()));
    assert_eq!(config.kernel.image_location, Some("memory".to_string()));
}
