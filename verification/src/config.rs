//! The value objects of a VM description and the aggregate that holds them.
//! They carry data only; each has a view over mathematical sequences, in
//! which the contracts of the decoder and of the template builder are stated.

use crate::codes::{EmulatedDeviceType, VMInterruptMode, VmMemMappingType};
use vstd::prelude::*;

verus! {

/// The view of an optional string.
pub open spec fn text_view(text: Option<String>) -> Option<Seq<char>> {
    match text {
        Some(s) => Some(s@),
        None => None,
    }
}

/// The view of an optional list of integers.
pub open spec fn list_view(list: Option<Vec<usize>>) -> Option<Seq<usize>> {
    match list {
        Some(v) => Some(v@),
        None => None,
    }
}

/// A memory region of the guest.
#[derive(Debug, Clone, Copy, PartialEq, Eq, Structural)]
pub struct VmMemConfig {
    /// The start address of the region, as a guest physical address.
    pub gpa: usize,
    /// The size of the region.
    pub size: usize,
    /// The mapping flags of the region: a bit mask that this layer passes on.
    pub flags: usize,
    /// How the region is backed.
    pub map_type: VmMemMappingType,
}

impl Default for VmMemConfig {
    fn default() -> (r: Self)
        ensures
            r == (VmMemConfig { gpa: 0, size: 0, flags: 0, map_type: VmMemMappingType::MapAlloc }),
    {
        VmMemConfig { gpa: 0, size: 0, flags: 0, map_type: VmMemMappingType::MapAlloc }
    }
}

/// An emulated device of the guest.
#[derive(Debug, Clone, PartialEq, Eq)]
pub struct EmulatedDeviceConfig {
    /// The name of the device.
    pub name: String,
    /// The base guest physical address of the device.
    pub base_gpa: usize,
    /// The length of the device's address range.
    pub length: usize,
    /// The interrupt number of the device.
    pub irq_id: usize,
    /// The type of the device.
    pub emu_type: EmulatedDeviceType,
    /// Further settings, whose meaning depends on the type.
    pub cfg_list: Vec<usize>,
}

/// The view of an [`EmulatedDeviceConfig`].
pub struct EmulatedDeviceView {
    pub name: Seq<char>,
    pub base_gpa: usize,
    pub length: usize,
    pub irq_id: usize,
    pub emu_type: EmulatedDeviceType,
    pub cfg_list: Seq<usize>,
}

impl View for EmulatedDeviceConfig {
    type V = EmulatedDeviceView;

    open spec fn view(&self) -> EmulatedDeviceView {
        EmulatedDeviceView {
            name: self.name@,
            base_gpa: self.base_gpa,
            length: self.length,
            irq_id: self.irq_id,
            emu_type: self.emu_type,
            cfg_list: self.cfg_list@,
        }
    }
}

impl EmulatedDeviceView {
    /// The device that has every field at its default.
    pub open spec fn empty() -> EmulatedDeviceView {
        EmulatedDeviceView {
            name: Seq::empty(),
            base_gpa: 0,
            length: 0,
            irq_id: 0,
            emu_type: EmulatedDeviceType::Dummy,
            cfg_list: Seq::empty(),
        }
    }
}

impl Default for EmulatedDeviceConfig {
    fn default() -> (r: Self)
        ensures
            r@ == EmulatedDeviceView::empty(),
    {
        EmulatedDeviceConfig {
            name: String::new(),
            base_gpa: 0,
            length: 0,
            irq_id: 0,
            emu_type: EmulatedDeviceType::Dummy,
            cfg_list: Vec::new(),
        }
    }
}

/// A device of the host that is passed through to the guest. It has no type:
/// its address ranges identify it.
#[derive(Debug, Clone, PartialEq, Eq)]
pub struct PassThroughDeviceConfig {
    /// The name of the device.
    pub name: String,
    /// The base guest physical address of the device.
    pub base_gpa: usize,
    /// The base host physical address of the device.
    pub base_hpa: usize,
    /// The length of the device's address range.
    pub length: usize,
    /// The interrupt number of the device.
    pub irq_id: usize,
}

/// The view of a [`PassThroughDeviceConfig`].
pub struct PassThroughDeviceView {
    pub name: Seq<char>,
    pub base_gpa: usize,
    pub base_hpa: usize,
    pub length: usize,
    pub irq_id: usize,
}

impl View for PassThroughDeviceConfig {
    type V = PassThroughDeviceView;

    open spec fn view(&self) -> PassThroughDeviceView {
        PassThroughDeviceView {
            name: self.name@,
            base_gpa: self.base_gpa,
            base_hpa: self.base_hpa,
            length: self.length,
            irq_id: self.irq_id,
        }
    }
}

impl PassThroughDeviceView {
    /// The device that has every field at its default.
    pub open spec fn empty() -> PassThroughDeviceView {
        PassThroughDeviceView { name: Seq::empty(), base_gpa: 0, base_hpa: 0, length: 0, irq_id: 0 }
    }
}

impl Default for PassThroughDeviceConfig {
    fn default() -> (r: Self)
        ensures
            r@ == PassThroughDeviceView::empty(),
    {
        PassThroughDeviceConfig {
            name: String::new(),
            base_gpa: 0,
            base_hpa: 0,
            length: 0,
            irq_id: 0,
        }
    }
}

/// Identity and processors of the guest.
#[derive(Debug, Clone, PartialEq, Eq)]
pub struct VMBaseConfig {
    /// The id of the VM.
    pub id: usize,
    /// The name of the VM.
    pub name: String,
    /// The wire code of the VM's type. It is kept as it was read, so that a
    /// code that no variant of [`crate::codes::VMType`] owns reaches the
    /// consumer unchanged.
    pub vm_type: usize,
    /// The number of virtual CPUs.
    pub cpu_num: usize,
    /// The physical id of each virtual CPU; where `None`, the virtual CPU's
    /// own index.
    pub phys_cpu_ids: Option<Vec<usize>>,
    /// For each virtual CPU the mask of physical CPUs that may run it; where
    /// `None`, any may. The masks are meant to be as many as `cpu_num`; this
    /// layer does not hold a description to that.
    pub phys_cpu_sets: Option<Vec<usize>>,
}

/// The view of a [`VMBaseConfig`].
pub struct VMBaseView {
    pub id: usize,
    pub name: Seq<char>,
    pub vm_type: usize,
    pub cpu_num: usize,
    pub phys_cpu_ids: Option<Seq<usize>>,
    pub phys_cpu_sets: Option<Seq<usize>>,
}

impl View for VMBaseConfig {
    type V = VMBaseView;

    open spec fn view(&self) -> VMBaseView {
        VMBaseView {
            id: self.id,
            name: self.name@,
            vm_type: self.vm_type,
            cpu_num: self.cpu_num,
            phys_cpu_ids: list_view(self.phys_cpu_ids),
            phys_cpu_sets: list_view(self.phys_cpu_sets),
        }
    }
}

impl VMBaseView {
    /// The base description that has every field at its default.
    pub open spec fn empty() -> VMBaseView {
        VMBaseView {
            id: 0,
            name: Seq::empty(),
            vm_type: 0,
            cpu_num: 0,
            phys_cpu_ids: None,
            phys_cpu_sets: None,
        }
    }
}

impl Default for VMBaseConfig {
    fn default() -> (r: Self)
        ensures
            r@ == VMBaseView::empty(),
    {
        VMBaseConfig {
            id: 0,
            name: String::new(),
            vm_type: 0,
            cpu_num: 0,
            phys_cpu_ids: None,
            phys_cpu_sets: None,
        }
    }
}

/// Kernel, boot images and memory of the guest. Of each image, the path and
/// the load address are optional independently of one another.
#[derive(Debug, Clone, PartialEq, Eq)]
pub struct VMKernelConfig {
    /// The entry point of the kernel image.
    pub entry_point: usize,
    /// The path of the kernel image.
    pub kernel_path: String,
    /// The load address of the kernel image.
    pub kernel_load_addr: usize,
    /// The path of the BIOS image.
    pub bios_path: Option<String>,
    /// The load address of the BIOS image.
    pub bios_load_addr: Option<usize>,
    /// The path of the device tree blob.
    pub dtb_path: Option<String>,
    /// The load address of the device tree blob.
    pub dtb_load_addr: Option<usize>,
    /// The path of the ramdisk image.
    pub ramdisk_path: Option<String>,
    /// The load address of the ramdisk image.
    pub ramdisk_load_addr: Option<usize>,
    /// Where the images are found.
    pub image_location: Option<String>,
    /// The command line of the kernel.
    pub cmdline: Option<String>,
    /// The path of the disk image.
    pub disk_path: Option<String>,
    /// The memory regions, in the order given.
    pub memory_regions: Vec<VmMemConfig>,
}

/// The view of a [`VMKernelConfig`].
pub struct VMKernelView {
    pub entry_point: usize,
    pub kernel_path: Seq<char>,
    pub kernel_load_addr: usize,
    pub bios_path: Option<Seq<char>>,
    pub bios_load_addr: Option<usize>,
    pub dtb_path: Option<Seq<char>>,
    pub dtb_load_addr: Option<usize>,
    pub ramdisk_path: Option<Seq<char>>,
    pub ramdisk_load_addr: Option<usize>,
    pub image_location: Option<Seq<char>>,
    pub cmdline: Option<Seq<char>>,
    pub disk_path: Option<Seq<char>>,
    pub memory_regions: Seq<VmMemConfig>,
}

impl View for VMKernelConfig {
    type V = VMKernelView;

    open spec fn view(&self) -> VMKernelView {
        VMKernelView {
            entry_point: self.entry_point,
            kernel_path: self.kernel_path@,
            kernel_load_addr: self.kernel_load_addr,
            bios_path: text_view(self.bios_path),
            bios_load_addr: self.bios_load_addr,
            dtb_path: text_view(self.dtb_path),
            dtb_load_addr: self.dtb_load_addr,
            ramdisk_path: text_view(self.ramdisk_path),
            ramdisk_load_addr: self.ramdisk_load_addr,
            image_location: text_view(self.image_location),
            cmdline: text_view(self.cmdline),
            disk_path: text_view(self.disk_path),
            memory_regions: self.memory_regions@,
        }
    }
}

impl VMKernelView {
    /// The kernel description that has every field at its default.
    pub open spec fn empty() -> VMKernelView {
        VMKernelView {
            entry_point: 0,
            kernel_path: Seq::empty(),
            kernel_load_addr: 0,
            bios_path: None,
            bios_load_addr: None,
            dtb_path: None,
            dtb_load_addr: None,
            ramdisk_path: None,
            ramdisk_load_addr: None,
            image_location: None,
            cmdline: None,
            disk_path: None,
            memory_regions: Seq::empty(),
        }
    }
}

impl Default for VMKernelConfig {
    fn default() -> (r: Self)
        ensures
            r@ == VMKernelView::empty(),
    {
        VMKernelConfig {
            entry_point: 0,
            kernel_path: String::new(),
            kernel_load_addr: 0,
            bios_path: None,
            bios_load_addr: None,
            dtb_path: None,
            dtb_load_addr: None,
            ramdisk_path: None,
            ramdisk_load_addr: None,
            image_location: None,
            cmdline: None,
            disk_path: None,
            memory_regions: Vec::new(),
        }
    }
}

/// The views of a list of emulated devices, in the same order.
pub open spec fn emulated_views(list: Seq<EmulatedDeviceConfig>) -> Seq<EmulatedDeviceView> {
    Seq::new(list.len(), |i: int| list[i]@)
}

/// The views of a list of passed-through devices, in the same order.
pub open spec fn passthrough_views(list: Seq<PassThroughDeviceConfig>) -> Seq<
    PassThroughDeviceView,
> {
    Seq::new(list.len(), |i: int| list[i]@)
}

/// The devices of the guest.
#[derive(Debug, Clone, PartialEq, Eq)]
pub struct VMDevicesConfig {
    /// The emulated devices, in the order given.
    pub emu_devices: Vec<EmulatedDeviceConfig>,
    /// The passed-through devices, in the order given.
    pub passthrough_devices: Vec<PassThroughDeviceConfig>,
    /// How the VM handles interrupts.
    pub interrupt_mode: VMInterruptMode,
}

/// The view of a [`VMDevicesConfig`].
pub struct VMDevicesView {
    pub emu_devices: Seq<EmulatedDeviceView>,
    pub passthrough_devices: Seq<PassThroughDeviceView>,
    pub interrupt_mode: VMInterruptMode,
}

impl View for VMDevicesConfig {
    type V = VMDevicesView;

    open spec fn view(&self) -> VMDevicesView {
        VMDevicesView {
            emu_devices: emulated_views(self.emu_devices@),
            passthrough_devices: passthrough_views(self.passthrough_devices@),
            interrupt_mode: self.interrupt_mode,
        }
    }
}

impl VMDevicesView {
    /// The devices description that has every field at its default.
    pub open spec fn empty() -> VMDevicesView {
        VMDevicesView {
            emu_devices: Seq::empty(),
            passthrough_devices: Seq::empty(),
            interrupt_mode: VMInterruptMode::NoIrq,
        }
    }
}

impl Default for VMDevicesConfig {
    fn default() -> (r: Self)
        ensures
            r@ == VMDevicesView::empty(),
    {
        let r = VMDevicesConfig {
            emu_devices: Vec::new(),
            passthrough_devices: Vec::new(),
            interrupt_mode: VMInterruptMode::NoIrq,
        };
        assert(r@.emu_devices =~= Seq::empty());
        assert(r@.passthrough_devices =~= Seq::empty());
        r
    }
}

/// The description of one guest VM: what the decoder produces and what the
/// code that creates the VM consumes.
#[derive(Debug, Clone, PartialEq, Eq)]
pub struct AxVMCrateConfig {
    /// Identity and processors.
    pub base: VMBaseConfig,
    /// Kernel, boot images and memory.
    pub kernel: VMKernelConfig,
    /// Devices.
    pub devices: VMDevicesConfig,
}

/// The view of an [`AxVMCrateConfig`].
pub struct AxVMCrateView {
    pub base: VMBaseView,
    pub kernel: VMKernelView,
    pub devices: VMDevicesView,
}

impl View for AxVMCrateConfig {
    type V = AxVMCrateView;

    open spec fn view(&self) -> AxVMCrateView {
        AxVMCrateView { base: self.base@, kernel: self.kernel@, devices: self.devices@ }
    }
}

impl AxVMCrateView {
    /// The description that has every field at its default: id, type code
    /// and counts 0, names empty, no optional field present, no memory
    /// region, no device, and no interrupts.
    pub open spec fn empty() -> AxVMCrateView {
        AxVMCrateView {
            base: VMBaseView::empty(),
            kernel: VMKernelView::empty(),
            devices: VMDevicesView::empty(),
        }
    }
}

impl Default for AxVMCrateConfig {
    fn default() -> (r: Self)
        ensures
            r@ == AxVMCrateView::empty(),
    {
        AxVMCrateConfig {
            base: VMBaseConfig::default(),
            kernel: VMKernelConfig::default(),
            devices: VMDevicesConfig::default(),
        }
    }
}

} // verus!
