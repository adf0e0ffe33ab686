//! Architecture abstraction layer: types shared by every architecture,
//! and the architectures' own modules.

pub mod aarch64;
pub mod arm;
pub mod x86;
pub mod x86_64;

use vstd::prelude::*;
use crate::textutil::str_eq;

verus! {

pub const KERNEL_STACK_SIZE: usize = 16384;
pub const USER_STACK_SIZE: usize = 65536;
pub const PAGE_SIZE: usize = 4096;

/// The address types of an architecture and what it can say about
/// addresses without touching the hardware.
pub trait ArchitectureOps {
    type VirtAddr: Copy;
    type PhysAddr: Copy;
    type PageSize: Copy;

    fn get_page_size() -> Self::PageSize;

    fn virtual_to_physical(virt: Self::VirtAddr) -> Option<Self::PhysAddr>;
}

/// Building and editing an architecture's page tables.
pub trait MemoryManagement: ArchitectureOps {
    type PageTable;
    type PageTableEntry;

    fn create_page_table() -> Self::PageTable;

    fn map_page(
        page_table: &mut Self::PageTable,
        virt: Self::VirtAddr,
        phys: Self::PhysAddr,
        flags: u32,
    ) -> Result<(), &'static str>;

    fn unmap_page(page_table: &mut Self::PageTable, virt: Self::VirtAddr) -> Result<(), &'static str>;
}

/// Register state saved for a context switch.
#[derive(Debug, Clone, Copy)]
pub struct RegisterContext {
    pub stack_pointer: usize,
    pub instruction_pointer: usize,
    pub general_purpose: [usize; 16],
    pub flags: usize,
}

impl RegisterContext {
    /// A context with every register zero.
    pub fn new() -> (ret: Self)
        ensures
            ret.stack_pointer == 0,
            ret.instruction_pointer == 0,
            ret.flags == 0,
            forall|i: int| 0 <= i < 16 ==> ret.general_purpose[i] == 0,
    {
        RegisterContext { stack_pointer: 0, instruction_pointer: 0, general_purpose: [0; 16], flags: 0 }
    }
}

/// A description of the architecture named `target_arch` (as Rust's
/// `target_arch` names it).
pub fn get_architecture_info(target_arch: &str) -> (ret: &'static str)
    ensures
        target_arch@ == "x86_64"@ ==> ret@ == "x86_64 (64-bit Intel/AMD)"@,
        target_arch@ == "x86"@ ==> ret@ == "x86 (32-bit Intel/AMD)"@,
        target_arch@ == "arm"@ ==> ret@ == "ARM (32-bit)"@,
        target_arch@ == "aarch64"@ ==> ret@ == "AArch64 (64-bit ARM)"@,
        target_arch@ != "x86_64"@ && target_arch@ != "x86"@ && target_arch@ != "arm"@
            && target_arch@ != "aarch64"@ ==> ret@ == "Unknown architecture"@,
{
    proof {
        reveal_strlit("x86_64");
        reveal_strlit("x86");
        reveal_strlit("arm");
        reveal_strlit("aarch64");
        assert("x86_64"@.len() == 6 && "x86"@.len() == 3 && "arm"@.len() == 3 && "aarch64"@.len() == 7);
        assert("arm"@[0] != "x86"@[0]);
    }
    if str_eq(target_arch, "x86_64") {
        "x86_64 (64-bit Intel/AMD)"
    } else if str_eq(target_arch, "x86") {
        "x86 (32-bit Intel/AMD)"
    } else if str_eq(target_arch, "arm") {
        "ARM (32-bit)"
    } else if str_eq(target_arch, "aarch64") {
        "AArch64 (64-bit ARM)"
    } else {
        "Unknown architecture"
    }
}

/// The size of a pointer in bytes.
pub fn get_pointer_size() -> (ret: usize)
    ensures
        ret == vstd::layout::size_of::<usize>(),
{
    core::mem::size_of::<usize>()
}

/// Pointers take eight bytes.
pub fn is_64bit() -> (ret: bool)
    ensures
        ret == (vstd::layout::size_of::<usize>() == 8),
{
    get_pointer_size() == 8
}

/// What the boot loader hands over.
#[derive(Debug)]
pub struct BootInfo {
    pub memory_map: Vec<MemoryRegion>,
    pub kernel_start: usize,
    pub kernel_end: usize,
    pub initrd_start: Option<usize>,
    pub initrd_end: Option<usize>,
    pub command_line: Option<String>,
}

/// A region of physical memory.
#[derive(Debug, Clone, Copy)]
pub struct MemoryRegion {
    pub start: usize,
    pub size: usize,
    pub region_type: MemoryRegionType,
}

/// What a region of physical memory holds.
#[derive(Debug, Clone, Copy, PartialEq, Eq, Structural)]
pub enum MemoryRegionType {
    Usable,
    Reserved,
    AcpiReclaimable,
    AcpiNvs,
    BadMemory,
    Bootloader,
    Kernel,
    Framebuffer,
}

/// Exceptions and interrupts common to the architectures.
#[derive(Debug, Clone, Copy, PartialEq, Eq, Structural)]
pub enum ExceptionType {
    DivideByZero,
    Debug,
    NonMaskableInterrupt,
    Breakpoint,
    Overflow,
    BoundRangeExceeded,
    InvalidOpcode,
    DeviceNotAvailable,
    DoubleFault,
    InvalidTss,
    SegmentNotPresent,
    StackSegmentFault,
    GeneralProtectionFault,
    PageFault,
    FloatingPointException,
    AlignmentCheck,
    MachineCheck,
    SimdFloatingPointException,
    VirtualizationException,
    SecurityException,
    ArchSpecific(u8),
}

/// CPU identification common to the architectures.
#[derive(Debug)]
pub struct CpuInfo {
    pub vendor: &'static str,
    pub model: &'static str,
    pub features: CpuFeatures,
    pub cache_info: CacheInfo,
}

#[derive(Debug)]
pub struct CpuFeatures {
    pub has_fpu: bool,
    pub has_sse: bool,
    pub has_sse2: bool,
    pub has_avx: bool,
    pub has_virtualization: bool,
    pub has_aes: bool,
}

/// Cache sizes in bytes.
#[derive(Debug)]
pub struct CacheInfo {
    pub l1_instruction: Option<usize>,
    pub l1_data: Option<usize>,
    pub l2: Option<usize>,
    pub l3: Option<usize>,
}

/// The CPU information known without asking the CPU: nothing.
pub fn get_cpu_info() -> (ret: CpuInfo)
    ensures
        ret.vendor@ == "Unknown"@,
        ret.model@ == "Unknown"@,
        !ret.features.has_fpu && !ret.features.has_sse && !ret.features.has_sse2
            && !ret.features.has_avx && !ret.features.has_virtualization && !ret.features.has_aes,
        ret.cache_info.l1_instruction is None,
        ret.cache_info.l1_data is None,
        ret.cache_info.l2 is None,
        ret.cache_info.l3 is None,
{
    CpuInfo {
        vendor: "Unknown",
        model: "Unknown",
        features: CpuFeatures {
            has_fpu: false,
            has_sse: false,
            has_sse2: false,
            has_avx: false,
            has_virtualization: false,
            has_aes: false,
        },
        cache_info: CacheInfo { l1_instruction: None, l1_data: None, l2: None, l3: None },
    }
}

} // verus!
