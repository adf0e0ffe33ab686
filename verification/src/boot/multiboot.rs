//! The Multiboot (version 1) header that a boot loader looks for in the
//! first 8 KiB of the kernel image.

use vstd::prelude::*;

verus! {

/// The Multiboot magic number.
pub const MULTIBOOT_MAGIC: u32 = 0x1BADB002;

/// The header flags: page-aligned modules, memory information, and the
/// address fields of the header are valid.
pub const MULTIBOOT_FLAGS: u32 = 0x00010003;

/// The header a Multiboot loader reads.
pub struct Multiboot1Header {
    magic: u32,
    flags: u32,
    checksum: u32,
    header_addr: u32,
    load_addr: u32,
    load_end_addr: u32,
    bss_end_addr: u32,
    entry_addr: u32,
}

/// The header's fields, in order.
pub struct MultibootFields {
    pub magic: u32,
    pub flags: u32,
    pub checksum: u32,
    pub header_addr: u32,
    pub load_addr: u32,
    pub load_end_addr: u32,
    pub bss_end_addr: u32,
    pub entry_addr: u32,
}

impl Multiboot1Header {
    /// The header's fields.
    pub closed spec fn fields(&self) -> MultibootFields {
        MultibootFields {
            magic: self.magic,
            flags: self.flags,
            checksum: self.checksum,
            header_addr: self.header_addr,
            load_addr: self.load_addr,
            load_end_addr: self.load_end_addr,
            bss_end_addr: self.bss_end_addr,
            entry_addr: self.entry_addr,
        }
    }

    /// The kernel's header: the magic number, the flags, the checksum that
    /// makes the three sum to zero modulo 2^32, loading and entry at 1 MiB,
    /// and the other addresses left 0.
    pub fn new() -> (ret: Self)
        ensures
            ret.fields().magic == MULTIBOOT_MAGIC,
            ret.fields().flags == MULTIBOOT_FLAGS,
            (ret.fields().magic + ret.fields().flags + ret.fields().checksum) % 0x1_0000_0000 == 0,
            ret.fields().header_addr == 0,
            ret.fields().load_addr == 0x100000,
            ret.fields().load_end_addr == 0,
            ret.fields().bss_end_addr == 0,
            ret.fields().entry_addr == 0x100000,
    {
        let sum: u32 = MULTIBOOT_MAGIC + MULTIBOOT_FLAGS;
        assert(!0x1BAEB005u32 == 0xE4514FFAu32) by (bit_vector);
        let checksum: u32 = !sum + 1;
        Multiboot1Header {
            magic: MULTIBOOT_MAGIC,
            flags: MULTIBOOT_FLAGS,
            checksum,
            header_addr: 0,
            load_addr: 0x100000,
            load_end_addr: 0,
            bss_end_addr: 0,
            entry_addr: 0x100000,
        }
    }
}

} // verus!
