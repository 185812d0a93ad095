//! Building a VM description from a handful of scalars.

use crate::config::{
    text_view, AxVMCrateConfig, AxVMCrateView, VMBaseConfig, VMBaseView, VMDevicesConfig,
    VMDevicesView, VMKernelConfig, VMKernelView,
};
use crate::codes::VMInterruptMode;
use vstd::prelude::*;
use vstd::string::StringExecFns;

verus! {

/// The ids `0, 1, .., count - 1`, in this order.
pub open spec fn sequential_ids(count: usize) -> Seq<usize> {
    Seq::new(count as nat, |i: int| i as usize)
}

/// The description that the template builder owes for its arguments: the
/// scalars where they belong, the physical CPU ids counted up from 0, and
/// every other field at its default.
pub open spec fn template_view(
    id: usize,
    name: Seq<char>,
    vm_type: usize,
    cpu_num: usize,
    entry_point: usize,
    kernel_path: Seq<char>,
    kernel_load_addr: usize,
    image_location: Seq<char>,
    cmdline: Option<Seq<char>>,
) -> AxVMCrateView {
    AxVMCrateView {
        base: VMBaseView {
            id,
            name,
            vm_type,
            cpu_num,
            phys_cpu_ids: Some(sequential_ids(cpu_num)),
            phys_cpu_sets: None,
        },
        kernel: VMKernelView {
            entry_point,
            kernel_path,
            kernel_load_addr,
            bios_path: None,
            bios_load_addr: None,
            dtb_path: None,
            dtb_load_addr: None,
            ramdisk_path: None,
            ramdisk_load_addr: None,
            image_location: Some(image_location),
            cmdline,
            disk_path: None,
            memory_regions: Seq::empty(),
        },
        devices: VMDevicesView::empty(),
    }
}

/// Builds the list `0, 1, .., count - 1`.
pub fn count_up(count: usize) -> (r: Vec<usize>)
    ensures
        r@ == sequential_ids(count),
{
    let mut ids: Vec<usize> = Vec::new();
    let mut i: usize = 0;
    while i < count
        invariant
            i <= count,
            ids@.len() == i,
            forall|k: int| 0 <= k < i ==> ids@[k] == k as usize,
        decreases count - i,
    {
        ids.push(i);
        i = i + 1;
    }
    assert(ids@ =~= sequential_ids(count));
    ids
}

/// Builds a VM description from the given scalars. The arguments are taken
/// as they are: none is checked. Each virtual CPU gets the physical id of its
/// own index, no affinity mask is set, and there is no image but the kernel,
/// no memory region, no device and no interrupt handling.
pub fn get_vm_config_template(
    id: usize,
    name: String,
    vm_type: usize,
    cpu_num: usize,
    entry_point: usize,
    kernel_path: String,
    kernel_load_addr: usize,
    image_location: String,
    cmdline: Option<String>,
) -> (r: AxVMCrateConfig)
    ensures
        r@ == template_view(
            id,
            name@,
            vm_type,
            cpu_num,
            entry_point,
            kernel_path@,
            kernel_load_addr,
            image_location@,
            text_view(cmdline),
        ),
        r@.base.phys_cpu_ids == Some(sequential_ids(cpu_num)),
        r@.base.phys_cpu_sets is None,
{
    let r = AxVMCrateConfig {
        base: VMBaseConfig {
            id,
            name,
            vm_type,
            cpu_num,
            phys_cpu_ids: Some(count_up(cpu_num)),
            phys_cpu_sets: None,
        },
        kernel: VMKernelConfig {
            entry_point,
            kernel_path,
            kernel_load_addr,
            bios_path: None,
            bios_load_addr: None,
            dtb_path: None,
            dtb_load_addr: None,
            ramdisk_path: None,
            ramdisk_load_addr: None,
            image_location: Some(image_location),
            cmdline,
            disk_path: None,
            memory_regions: Vec::new(),
        },
        devices: VMDevicesConfig {
            emu_devices: Vec::new(),
            passthrough_devices: Vec::new(),
            interrupt_mode: VMInterruptMode::NoIrq,
        },
    };
    assert(r@.devices.emu_devices =~= Seq::empty());
    assert(r@.devices.passthrough_devices =~= Seq::empty());
    r
}

/// The name of a generated VM: the given name, a hyphen and the
/// architecture.
pub fn vm_name(name: String, arch: &str) -> (r: String)
    ensures
        r@ == name@ + "-"@ + arch@,
{
    name.concat("-").concat(arch)
}

/// Whether a template's kernel path has to be made absolute: it has where
/// the image is loaded from memory, as the path then names a file of the
/// host and not one inside the guest's file system.
pub fn wants_absolute_path(image_location: &String) -> (r: bool)
    ensures
        r == (image_location@ == "memory"@),
{
    *image_location == "memory".to_owned()
}

} // verus!
