//! The enumerated code tables: small integer codes on the wire, named
//! variants in memory. Decoding is total: a code that no variant owns yields
//! the table's default variant.

use vstd::prelude::*;
use vstd::std_specs::convert::FromSpecImpl;

verus! {

/// The kind of guest that a VM runs.
#[derive(Clone, Copy, PartialEq, Eq, Debug, Structural)]
pub enum VMType {
    /// Host VM, booted from a running Linux ("type 1.5").
    VMTHostVM,
    /// Guest RTOS: a simple guest with most resources passed through.
    VMTRTOS,
    /// Guest Linux: a full guest with device emulation.
    VMTLinux,
}

impl VMType {
    /// The wire code of a variant.
    pub open spec fn code_of(self) -> usize {
        match self {
            VMType::VMTHostVM => 0,
            VMType::VMTRTOS => 1,
            VMType::VMTLinux => 2,
        }
    }

    /// The variant that a wire code stands for; `VMTRTOS` for every code that
    /// no variant owns.
    pub open spec fn decoded(value: usize) -> VMType {
        if value == 0 {
            VMType::VMTHostVM
        } else if value == 2 {
            VMType::VMTLinux
        } else {
            VMType::VMTRTOS
        }
    }

    /// Whether some variant owns the code.
    pub open spec fn defines(value: usize) -> bool {
        value <= 2
    }

    /// Tells whether some variant owns the code, so that a caller can report
    /// a code that `from` will replace by the default.
    pub fn is_defined(value: usize) -> (r: bool)
        ensures
            r == Self::defines(value),
    {
        value <= 2
    }
}

impl Default for VMType {
    fn default() -> (r: Self)
        ensures
            r == VMType::VMTRTOS,
    {
        VMType::VMTRTOS
    }
}

impl From<usize> for VMType {
    fn from(value: usize) -> (r: Self) {
        match value {
            0 => VMType::VMTHostVM,
            1 => VMType::VMTRTOS,
            2 => VMType::VMTLinux,
            _ => VMType::VMTRTOS,
        }
    }
}

impl FromSpecImpl<usize> for VMType {
    open spec fn obeys_from_spec() -> bool {
        true
    }

    open spec fn from_spec(value: usize) -> Self {
        VMType::decoded(value)
    }
}

impl From<VMType> for usize {
    fn from(value: VMType) -> (r: Self) {
        match value {
            VMType::VMTHostVM => 0,
            VMType::VMTRTOS => 1,
            VMType::VMTLinux => 2,
        }
    }
}

impl FromSpecImpl<VMType> for usize {
    open spec fn obeys_from_spec() -> bool {
        true
    }

    open spec fn from_spec(value: VMType) -> Self {
        value.code_of()
    }
}

/// How a memory region is backed.
#[derive(Clone, Copy, PartialEq, Eq, Debug, Structural)]
pub enum VmMemMappingType {
    /// The region is allocated by the VM monitor.
    MapAlloc,
    /// The region is the host physical region of the same address.
    MapIdentical,
}

impl VmMemMappingType {
    /// The wire code of a variant.
    pub open spec fn code_of(self) -> u8 {
        match self {
            VmMemMappingType::MapAlloc => 0,
            VmMemMappingType::MapIdentical => 1,
        }
    }

    /// The variant that a wire code stands for; `MapAlloc` for every code
    /// that no variant owns.
    pub open spec fn decoded(value: u8) -> VmMemMappingType {
        if value == 1 {
            VmMemMappingType::MapIdentical
        } else {
            VmMemMappingType::MapAlloc
        }
    }

    /// Whether some variant owns the code.
    pub open spec fn defines(value: u8) -> bool {
        value <= 1
    }

    /// The wire code of `self`.
    pub fn code(&self) -> (r: u8)
        ensures
            r == self.code_of(),
            Self::decoded(r) == *self,
    {
        match self {
            VmMemMappingType::MapAlloc => 0,
            VmMemMappingType::MapIdentical => 1,
        }
    }

    /// Decodes a wire code. Never fails: an unknown code gives `MapAlloc`.
    pub fn from_u8(value: u8) -> (r: VmMemMappingType)
        ensures
            r == Self::decoded(value),
            !Self::defines(value) ==> r == VmMemMappingType::MapAlloc,
    {
        match value {
            1 => VmMemMappingType::MapIdentical,
            _ => VmMemMappingType::MapAlloc,
        }
    }

    /// Tells whether some variant owns the code.
    pub fn is_defined(value: u8) -> (r: bool)
        ensures
            r == Self::defines(value),
    {
        value <= 1
    }
}

impl Default for VmMemMappingType {
    fn default() -> (r: Self)
        ensures
            r == VmMemMappingType::MapAlloc,
    {
        VmMemMappingType::MapAlloc
    }
}

/// The type of an emulated device.
///
/// The code space is sparse and split into bands:
/// - `0x00..=0x1F`: special devices and abstract device types;
/// - `0x20..=0x7F`: concrete emulated devices, `0x20..=0x2F` of them
///   interrupt controllers;
/// - `0xE0..=0xEF`: virtio devices.
#[derive(Clone, Copy, PartialEq, Eq, Debug, Structural)]
pub enum EmulatedDeviceType {
    /// Dummy device type.
    Dummy,
    /// Interrupt controller, e.g. vGICv2 on aarch64, vLAPIC on x86.
    InterruptController,
    /// Console (serial) device.
    Console,
    /// Inter-VM communication channel.
    IVCChannel,
    /// ARM GIC partial passthrough redistributor.
    GPPTRedistributor,
    /// ARM GIC partial passthrough distributor.
    GPPTDistributor,
    /// ARM GIC partial passthrough interrupt translation service.
    GPPTITS,
    /// Virtio block device.
    VirtioBlk,
    /// Virtio net device.
    VirtioNet,
    /// Virtio console device.
    VirtioConsole,
}

impl EmulatedDeviceType {
    /// The wire code of a variant.
    pub open spec fn code_of(self) -> usize {
        match self {
            EmulatedDeviceType::Dummy => 0x0,
            EmulatedDeviceType::InterruptController => 0x1,
            EmulatedDeviceType::Console => 0x2,
            EmulatedDeviceType::IVCChannel => 0xA,
            EmulatedDeviceType::GPPTRedistributor => 0x20,
            EmulatedDeviceType::GPPTDistributor => 0x21,
            EmulatedDeviceType::GPPTITS => 0x22,
            EmulatedDeviceType::VirtioBlk => 0xE1,
            EmulatedDeviceType::VirtioNet => 0xE2,
            EmulatedDeviceType::VirtioConsole => 0xE3,
        }
    }

    /// Whether some variant owns the code.
    pub open spec fn defines(value: usize) -> bool {
        value == 0x0 || value == 0x1 || value == 0x2 || value == 0xA || value == 0x20 || value
            == 0x21 || value == 0x22 || value == 0xE1 || value == 0xE2 || value == 0xE3
    }

    /// The variant that a wire code stands for; `Dummy` for every code that
    /// no variant owns.
    pub open spec fn decoded(value: usize) -> EmulatedDeviceType {
        if value == 0x1 {
            EmulatedDeviceType::InterruptController
        } else if value == 0x2 {
            EmulatedDeviceType::Console
        } else if value == 0xA {
            EmulatedDeviceType::IVCChannel
        } else if value == 0x20 {
            EmulatedDeviceType::GPPTRedistributor
        } else if value == 0x21 {
            EmulatedDeviceType::GPPTDistributor
        } else if value == 0x22 {
            EmulatedDeviceType::GPPTITS
        } else if value == 0xE1 {
            EmulatedDeviceType::VirtioBlk
        } else if value == 0xE2 {
            EmulatedDeviceType::VirtioNet
        } else if value == 0xE3 {
            EmulatedDeviceType::VirtioConsole
        } else {
            EmulatedDeviceType::Dummy
        }
    }

    /// The variants that downstream hot-plug logic may remove.
    pub open spec fn removable_set() -> Set<EmulatedDeviceType> {
        set![
            EmulatedDeviceType::InterruptController,
            EmulatedDeviceType::GPPTRedistributor,
            EmulatedDeviceType::VirtioBlk,
            EmulatedDeviceType::VirtioNet,
            EmulatedDeviceType::VirtioConsole,
        ]
    }

    /// The human-readable label of a variant.
    pub open spec fn label_of(self) -> Seq<char> {
        match self {
            EmulatedDeviceType::Dummy => "meta device"@,
            EmulatedDeviceType::InterruptController => "interrupt controller"@,
            EmulatedDeviceType::Console => "console"@,
            EmulatedDeviceType::IVCChannel => "ivc channel"@,
            EmulatedDeviceType::GPPTRedistributor => "gic partial passthrough redistributor"@,
            EmulatedDeviceType::GPPTDistributor => "gic partial passthrough distributor"@,
            EmulatedDeviceType::GPPTITS => "gic partial passthrough its"@,
            EmulatedDeviceType::VirtioBlk => "virtio block"@,
            EmulatedDeviceType::VirtioNet => "virtio net"@,
            EmulatedDeviceType::VirtioConsole => "virtio console"@,
        }
    }

    /// The wire code of `self`.
    pub fn code(&self) -> (r: usize)
        ensures
            r == self.code_of(),
            r <= 0xFF,
            Self::decoded(r) == *self,
    {
        match self {
            EmulatedDeviceType::Dummy => 0x0,
            EmulatedDeviceType::InterruptController => 0x1,
            EmulatedDeviceType::Console => 0x2,
            EmulatedDeviceType::IVCChannel => 0xA,
            EmulatedDeviceType::GPPTRedistributor => 0x20,
            EmulatedDeviceType::GPPTDistributor => 0x21,
            EmulatedDeviceType::GPPTITS => 0x22,
            EmulatedDeviceType::VirtioBlk => 0xE1,
            EmulatedDeviceType::VirtioNet => 0xE2,
            EmulatedDeviceType::VirtioConsole => 0xE3,
        }
    }

    /// The human-readable label of `self`.
    pub fn label(&self) -> (r: String)
        ensures
            r@ == self.label_of(),
    {
        match self {
            EmulatedDeviceType::Dummy => "meta device".to_owned(),
            EmulatedDeviceType::InterruptController => "interrupt controller".to_owned(),
            EmulatedDeviceType::Console => "console".to_owned(),
            EmulatedDeviceType::IVCChannel => "ivc channel".to_owned(),
            EmulatedDeviceType::GPPTRedistributor => {
                "gic partial passthrough redistributor".to_owned()
            },
            EmulatedDeviceType::GPPTDistributor => "gic partial passthrough distributor".to_owned(),
            EmulatedDeviceType::GPPTITS => "gic partial passthrough its".to_owned(),
            EmulatedDeviceType::VirtioBlk => "virtio block".to_owned(),
            EmulatedDeviceType::VirtioNet => "virtio net".to_owned(),
            EmulatedDeviceType::VirtioConsole => "virtio console".to_owned(),
        }
    }

    /// Returns true if the device is removable.
    pub fn removable(&self) -> (r: bool)
        ensures
            r == Self::removable_set().contains(*self),
            r == (*self == EmulatedDeviceType::InterruptController
                || *self == EmulatedDeviceType::GPPTRedistributor
                || *self == EmulatedDeviceType::VirtioBlk
                || *self == EmulatedDeviceType::VirtioNet
                || *self == EmulatedDeviceType::VirtioConsole),
    {
        match self {
            EmulatedDeviceType::InterruptController
            | EmulatedDeviceType::GPPTRedistributor
            | EmulatedDeviceType::VirtioBlk
            | EmulatedDeviceType::VirtioNet
            | EmulatedDeviceType::VirtioConsole => true,
            _ => false,
        }
    }

    /// Decodes a wire code. Never fails: an unknown code gives `Dummy`.
    pub fn from_usize(value: usize) -> (r: EmulatedDeviceType)
        ensures
            r == Self::decoded(value),
            Self::defines(value) ==> r.code_of() == value,
            !Self::defines(value) ==> r == EmulatedDeviceType::Dummy,
    {
        match value {
            0x0 => EmulatedDeviceType::Dummy,
            0x1 => EmulatedDeviceType::InterruptController,
            0x2 => EmulatedDeviceType::Console,
            0xA => EmulatedDeviceType::IVCChannel,
            0x20 => EmulatedDeviceType::GPPTRedistributor,
            0x21 => EmulatedDeviceType::GPPTDistributor,
            0x22 => EmulatedDeviceType::GPPTITS,
            0xE1 => EmulatedDeviceType::VirtioBlk,
            0xE2 => EmulatedDeviceType::VirtioNet,
            0xE3 => EmulatedDeviceType::VirtioConsole,
            _ => EmulatedDeviceType::Dummy,
        }
    }

    /// Tells whether some variant owns the code, so that a caller can report
    /// a code that `from_usize` will replace by the default.
    pub fn is_defined(value: usize) -> (r: bool)
        ensures
            r == Self::defines(value),
    {
        value == 0x0 || value == 0x1 || value == 0x2 || value == 0xA || value == 0x20
            || value == 0x21 || value == 0x22 || value == 0xE1 || value == 0xE2 || value == 0xE3
    }

    /// A code is defined exactly when it is the code of some variant, and
    /// then it decodes to a variant with this code.
    pub proof fn lemma_defined_codes(value: usize)
        ensures
            Self::defines(value) <==> exists|v: EmulatedDeviceType| v.code_of() == value,
            Self::defines(value) ==> Self::decoded(value).code_of() == value,
            !Self::defines(value) ==> Self::decoded(value) == EmulatedDeviceType::Dummy,
    {
        if Self::defines(value) {
            assert(Self::decoded(value).code_of() == value);
        }
    }

    /// Decoding the code of a variant gives that variant back.
    pub proof fn lemma_code_round_trip(v: EmulatedDeviceType)
        ensures
            Self::defines(v.code_of()),
            Self::decoded(v.code_of()) == v,
    {
    }

    /// A variant is removable exactly when it is an interrupt controller, a
    /// GIC redistributor or a virtio device; the five others are not.
    pub proof fn lemma_removable_partition(v: EmulatedDeviceType)
        ensures
            Self::removable_set().contains(v) <==> (v == EmulatedDeviceType::InterruptController
                || v == EmulatedDeviceType::GPPTRedistributor || v == EmulatedDeviceType::VirtioBlk
                || v == EmulatedDeviceType::VirtioNet || v == EmulatedDeviceType::VirtioConsole),
            !Self::removable_set().contains(EmulatedDeviceType::Dummy),
            !Self::removable_set().contains(EmulatedDeviceType::Console),
            !Self::removable_set().contains(EmulatedDeviceType::IVCChannel),
            !Self::removable_set().contains(EmulatedDeviceType::GPPTDistributor),
            !Self::removable_set().contains(EmulatedDeviceType::GPPTITS),
    {
    }
}

impl Default for EmulatedDeviceType {
    fn default() -> (r: Self)
        ensures
            r == EmulatedDeviceType::Dummy,
    {
        EmulatedDeviceType::Dummy
    }
}

/// How the VM handles interrupts and interrupt controllers.
#[derive(Clone, Copy, PartialEq, Eq, Debug, Structural)]
pub enum VMInterruptMode {
    /// The guest uses no interrupts.
    NoIrq,
    /// Interrupts go through an emulated interrupt controller.
    Emulated,
    /// Interrupts go through a passed-through interrupt controller.
    Passthrough,
}

impl VMInterruptMode {
    /// The variant that a name stands for, if any. Each variant has a
    /// canonical name and aliases; names are matched exactly, case included.
    pub open spec fn named(name: Seq<char>) -> Option<VMInterruptMode> {
        if name == "no_irq"@ || name == "no"@ || name == "none"@ {
            Some(VMInterruptMode::NoIrq)
        } else if name == "emu"@ || name == "emulated"@ {
            Some(VMInterruptMode::Emulated)
        } else if name == "passthrough"@ || name == "pt"@ {
            Some(VMInterruptMode::Passthrough)
        } else {
            None
        }
    }

    /// The canonical name of a variant.
    pub open spec fn name_of(self) -> Seq<char> {
        match self {
            VMInterruptMode::NoIrq => "no_irq"@,
            VMInterruptMode::Emulated => "emu"@,
            VMInterruptMode::Passthrough => "passthrough"@,
        }
    }

    /// Resolves a name or alias; `None` for any other string.
    pub fn from_name(name: &String) -> (r: Option<VMInterruptMode>)
        ensures
            r == Self::named(name@),
    {
        if *name == "no_irq".to_owned() || *name == "no".to_owned() || *name == "none".to_owned() {
            Some(VMInterruptMode::NoIrq)
        } else if *name == "emu".to_owned() || *name == "emulated".to_owned() {
            Some(VMInterruptMode::Emulated)
        } else if *name == "passthrough".to_owned() || *name == "pt".to_owned() {
            Some(VMInterruptMode::Passthrough)
        } else {
            None
        }
    }

    /// The canonical name of `self`, the one that is written out.
    pub fn name(&self) -> (r: String)
        ensures
            r@ == self.name_of(),
    {
        match self {
            VMInterruptMode::NoIrq => "no_irq".to_owned(),
            VMInterruptMode::Emulated => "emu".to_owned(),
            VMInterruptMode::Passthrough => "passthrough".to_owned(),
        }
    }

    /// The canonical name of a variant resolves to that variant.
    pub proof fn lemma_name_round_trip(mode: VMInterruptMode)
        ensures
            Self::named(mode.name_of()) == Some(mode),
    {
        reveal_strlit("no_irq");
        reveal_strlit("no");
        reveal_strlit("none");
        reveal_strlit("emu");
        reveal_strlit("emulated");
        reveal_strlit("passthrough");
        reveal_strlit("pt");
        assert("no_irq"@.len() == 6 && "no"@.len() == 2 && "none"@.len() == 4);
        assert("emu"@.len() == 3 && "emulated"@.len() == 8);
        assert("passthrough"@.len() == 11 && "pt"@.len() == 2);
    }
}

/// A code that no variant owns decodes to the default variant of its table:
/// `VMTRTOS` for a VM type, `MapAlloc` for a memory mapping type and `Dummy`
/// for an emulated device type. Decoding is total, so this is all that such
/// a code can do.
pub proof fn lemma_unknown_codes_decode_to_default(vm_type: usize, map_type: u8, emu_type: usize)
    ensures
        !VMType::defines(vm_type) ==> VMType::decoded(vm_type) == VMType::VMTRTOS,
        !VmMemMappingType::defines(map_type) ==> VmMemMappingType::decoded(map_type)
            == VmMemMappingType::MapAlloc,
        !EmulatedDeviceType::defines(emu_type) ==> EmulatedDeviceType::decoded(emu_type)
            == EmulatedDeviceType::Dummy,
        VMType::defines(vm_type) ==> VMType::decoded(vm_type).code_of() == vm_type,
        VmMemMappingType::defines(map_type) ==> VmMemMappingType::decoded(map_type).code_of()
            == map_type,
        EmulatedDeviceType::defines(emu_type) ==> EmulatedDeviceType::decoded(emu_type).code_of()
            == emu_type,
{
}

impl Default for VMInterruptMode {
    fn default() -> (r: Self)
        ensures
            r == VMInterruptMode::NoIrq,
    {
        VMInterruptMode::NoIrq
    }
}

} // verus!
