use axvmconfig::{EmulatedDeviceType, VMInterruptMode, VMType, VmMemMappingType};

const ALL_DEVICE_TYPES: [EmulatedDeviceType; 10] = [
    EmulatedDeviceType::Dummy,
    EmulatedDeviceType::InterruptController,
    EmulatedDeviceType::Console,
    EmulatedDeviceType::IVCChannel,
    EmulatedDeviceType::GPPTRedistributor,
    EmulatedDeviceType::GPPTDistributor,
    EmulatedDeviceType::GPPTITS,
    EmulatedDeviceType::VirtioBlk,
    EmulatedDeviceType::VirtioNet,
    EmulatedDeviceType::VirtioConsole,
];

#[test]
fn test_emu_dev_type_from_usize() {
    for emu_dev_type in ALL_DEVICE_TYPES {
        let converted = EmulatedDeviceType::from_usize(emu_dev_type.code());
        assert_eq!(
            converted, emu_dev_type,
            "Value mismatch after bidirectional conversion: {:?} -> {:?}",
            emu_dev_type, converted
        );
    }
}

#[test]
fn test_vmtype_enum() {
    assert_eq!(VMType::default(), VMType::VMTRTOS);

    assert_eq!(VMType::from(0), VMType::VMTHostVM);
    assert_eq!(VMType::from(1), VMType::VMTRTOS);
    assert_eq!(VMType::from(2), VMType::VMTLinux);
    assert_eq!(VMType::from(999), VMType::VMTRTOS);

    assert_eq!(usize::from(VMType::VMTHostVM), 0);
    assert_eq!(usize::from(VMType::VMTRTOS), 1);
    assert_eq!(usize::from(VMType::VMTLinux), 2);
}

#[test]
fn test_vm_mem_mapping_type() {
    assert_eq!(VmMemMappingType::default(), VmMemMappingType::MapAlloc);

    let alloc_type = VmMemMappingType::MapAlloc;
    let identical_type = VmMemMappingType::MapIdentical;

    assert_eq!(alloc_type as u8, 0);
    assert_eq!(identical_type as u8, 1);
    assert_eq!(alloc_type.code(), 0);
    assert_eq!(identical_type.code(), 1);
}

#[test]
fn test_emulated_device_type_removable() {
    assert!(EmulatedDeviceType::InterruptController.removable());
    assert!(EmulatedDeviceType::GPPTRedistributor.removable());
    assert!(EmulatedDeviceType::VirtioBlk.removable());
    assert!(EmulatedDeviceType::VirtioNet.removable());
    assert!(EmulatedDeviceType::VirtioConsole.removable());

    assert!(!EmulatedDeviceType::Dummy.removable());
    assert!(!EmulatedDeviceType::Console.removable());
    assert!(!EmulatedDeviceType::IVCChannel.removable());
    assert!(!EmulatedDeviceType::GPPTDistributor.removable());
    assert!(!EmulatedDeviceType::GPPTITS.removable());
}

#[test]
fn test_emulated_device_type_display() {
    assert_eq!(EmulatedDeviceType::Dummy.label(), "meta device");
    assert_eq!(
        EmulatedDeviceType::InterruptController.label(),
        "interrupt controller"
    );
    assert_eq!(EmulatedDeviceType::Console.label(), "console");
    assert_eq!(EmulatedDeviceType::IVCChannel.label(), "ivc channel");
    assert_eq!(
        EmulatedDeviceType::GPPTRedistributor.label(),
        "gic partial passthrough redistributor"
    );
    assert_eq!(
        EmulatedDeviceType::GPPTDistributor.label(),
        "gic partial passthrough distributor"
    );
    assert_eq!(
        EmulatedDeviceType::GPPTITS.label(),
        "gic partial passthrough its"
    );
    assert_eq!(EmulatedDeviceType::VirtioBlk.label(), "virtio block");
    assert_eq!(EmulatedDeviceType::VirtioNet.label(), "virtio net");
    assert_eq!(
        EmulatedDeviceType::VirtioConsole.label(),
        "virtio console"
    );
}

#[test]
fn device_type_codes_are_the_documented_ones() {
    let codes: Vec<usize> = ALL_DEVICE_TYPES.iter().map(|t| t.code()).collect();
    assert_eq!(codes, vec![0x0, 0x1, 0x2, 0xA, 0x20, 0x21, 0x22, 0xE1, 0xE2, 0xE3]);
}

#[test]
fn unknown_codes_decode_to_the_default() {
    for code in [0x3usize, 0x9, 0xB, 0x1F, 0x23, 0x7F, 0xE0, 0xE4, 0xFF, 0x100, usize::MAX] {
        assert!(!EmulatedDeviceType::is_defined(code));
        assert_eq!(EmulatedDeviceType::from_usize(code), EmulatedDeviceType::Dummy);
    }
    for code in [2u8, 3, 0x7F, 0xFF] {
        assert!(!VmMemMappingType::is_defined(code));
        assert_eq!(VmMemMappingType::from_u8(code), VmMemMappingType::MapAlloc);
    }
    assert_eq!(VmMemMappingType::from_u8(0), VmMemMappingType::MapAlloc);
    assert_eq!(VmMemMappingType::from_u8(1), VmMemMappingType::MapIdentical);
    for code in [3usize, 4, 999, usize::MAX] {
        assert!(!VMType::is_defined(code));
        assert_eq!(VMType::from(code), VMType::VMTRTOS);
    }
}

#[test]
fn interrupt_mode_names_and_aliases() {
    let resolve = |s: &str| VMInterruptMode::from_name(&s.to_string());
    assert_eq!(resolve("no_irq"), Some(VMInterruptMode::NoIrq));
    assert_eq!(resolve("no"), Some(VMInterruptMode::NoIrq));
    assert_eq!(resolve("none"), Some(VMInterruptMode::NoIrq));
    assert_eq!(resolve("emu"), Some(VMInterruptMode::Emulated));
    assert_eq!(resolve("emulated"), Some(VMInterruptMode::Emulated));
    assert_eq!(resolve("passthrough"), Some(VMInterruptMode::Passthrough));
    assert_eq!(resolve("pt"), Some(VMInterruptMode::Passthrough));
    assert_eq!(resolve("Emu"), None);
    assert_eq!(resolve("NoIrq"), None);
    assert_eq!(resolve(""), None);
    assert_eq!(VMInterruptMode::NoIrq.name(), "no_irq");
    assert_eq!(VMInterruptMode::Emulated.name(), "emu");
    assert_eq!(VMInterruptMode::Passthrough.name(), "passthrough");
}
