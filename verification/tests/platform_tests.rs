use rustixos::arch::arm::interrupts::{self as vic, init_vic, ArmInterrupt};
use rustixos::arch::arm::memory::{FirstLevelPageTable, PageTableEntry as ArmDescriptor, SecondLevelPageTable};
use rustixos::arch::arm::timer::{delay_ms, delay_us, ArmTimer};
use rustixos::arch::arm::{self as arm, ARMInterruptController, ARMTimer, MmioWrite32};
use rustixos::arch::x86::interrupts::{init_idt, Idt, IdtEntry, IDT_ENTRIES};
use rustixos::arch::x86::memory::{map_page as x86_map_page, PageDirectory, PageDirectoryEntry};
use rustixos::arch::x86::{self as x86, GdtEntry, PortWrite, X86InterruptController};
use rustixos::arch::x86_64::{get_cpu_vendor, has_feature, CpuFeature};
use rustixos::arch::{get_architecture_info, get_cpu_info, is_64bit, ArchitectureOps, MemoryManagement, RegisterContext};
use rustixos::boot::early_print::EarlyConsole;
use rustixos::boot::multiboot::Multiboot1Header;
use rustixos::bootloader::{self, BootInfo, MemoryMap, MemoryRegion, MemoryRegionType};
use rustixos::keyboard::{process_scancode, KeyboardManager, ScancodeDecoder};
use rustixos::memory::{handle_page_fault, BootInfoFrameAllocator, PageFaultInfo, PhysFrame, PhysicalMemoryManager};
use rustixos::qemu::QemuExitCode;

#[test]
fn arm_section_descriptor() {
    let mut e = ArmDescriptor::new();
    e.set_section(arm::PhysAddr(0x1234_5678));
    assert_eq!(format!("{:?}", e), format!("PageTableEntry({})", 0x1230_0C02u32));
    e.set_cacheable(true);
    e.set_bufferable(true);
    e.set_domain(0xF);
    assert_eq!(format!("{:?}", e), format!("PageTableEntry({})", 0x1230_0DEEu32));
    e.set_access_permission(2);
    assert_eq!(format!("{:?}", e), format!("PageTableEntry({})", 0x1230_09EEu32));
    e.set_present(false);
    assert_eq!(format!("{:?}", e), format!("PageTableEntry({})", 0x1230_09EEu32));
}

#[test]
fn arm_tables_map() {
    let mut l1 = FirstLevelPageTable::new();
    l1.map_section(0x8010_0000, arm::PhysAddr(0x4000_0000), true);
    assert_eq!(format!("{:?}", l1.entry(0x801)), format!("PageTableEntry({})", 0x4000_0DEEu32));
    l1.map_section(0x0020_0000, arm::PhysAddr(0x5000_0000), false);
    assert_eq!(format!("{:?}", l1.entry(2)), format!("PageTableEntry({})", 0x5000_0DE2u32));
    let mut l2 = SecondLevelPageTable::new();
    l2.map_page(0x0003_4000, arm::PhysAddr(0x6000_1000));
    assert_eq!(format!("{:?}", l2.entry(0x34)), format!("PageTableEntry({})", 0x6000_100Fu32));
    assert_eq!(format!("{:?}", l2.entry(0)), "PageTableEntry(0)");
}

#[test]
fn arm_generic_interface() {
    let mut t = <arm::ARM as MemoryManagement>::create_page_table();
    assert_eq!(<arm::ARM as MemoryManagement>::map_page(&mut t, arm::VirtAddr(0x5000), arm::PhysAddr(0x9000), 2), Ok(()));
    assert_eq!(<arm::ARM as MemoryManagement>::unmap_page(&mut t, arm::VirtAddr(0x5000)), Ok(()));
    assert!(<arm::ARM as ArchitectureOps>::virtual_to_physical(arm::VirtAddr(0x5000)).is_none());
    let mut e = arm::PageTableEntry::new();
    e.set_address(arm::PhysAddr(0xABCD_E123));
    e.set_present(true);
    e.set_writable(false);
    assert_eq!(format!("{:?}", e), format!("PageTableEntry({})", 0xABCD_E202u32));
}

#[test]
fn arm_interrupt_controller_writes() {
    assert_eq!(
        ARMInterruptController::init_writes(),
        vec![
            MmioWrite32 { addr: 0x1000_1000, value: 1 },
            MmioWrite32 { addr: 0x1000_2000, value: 1 },
            MmioWrite32 { addr: 0x1000_2004, value: 0xF0 },
        ]
    );
    assert_eq!(ARMInterruptController::enable_register(40), 0x1000_1104);
    assert_eq!(ARMInterruptController::enable_value(40, 0b1), 0b1 | (1 << 8));
    assert_eq!(ARMInterruptController::disable_write(3), MmioWrite32 { addr: 0x1000_1180, value: 8 });
    assert_eq!(ARMInterruptController::end_of_interrupt_write(30), MmioWrite32 { addr: 0x1000_2010, value: 30 });
    assert_eq!(ARMTimer::sleep_deadline(100, 5), 5100);
}

#[test]
fn arm_vic_and_timers() {
    let w = init_vic();
    assert_eq!(w.len(), 4);
    assert_eq!(w[3], MmioWrite32 { addr: 0x1014_0010, value: 0xFFFF_FFFF });
    assert_eq!(vic::enable_register(33), 0x1014_0014);
    assert_eq!(vic::enable_interrupt(33, 0), 2);
    assert_eq!(vic::disable_interrupt(1), MmioWrite32 { addr: 0x1014_0014, value: 2 });
    assert_eq!(vic::end_of_interrupt(9), MmioWrite32 { addr: 0x1014_0030, value: 9 });
    let t = ArmTimer::new(0x101E_2000);
    assert_eq!(t.init(1000), vec![
        MmioWrite32 { addr: 0x101E_2000, value: 1000 },
        MmioWrite32 { addr: 0x101E_2008, value: 0xE2 },
    ]);
    assert_eq!(t.value_register(), 0x101E_2004);
    assert_eq!(t.clear_interrupt_write(), MmioWrite32 { addr: 0x101E_200C, value: 0 });
    assert!(!delay_us(100, 50, 120));
    assert!(delay_us(100, 50, 150));
    assert!(delay_us(100, 50, 99));
    assert!(delay_ms(0, 1, 1000));
    assert!(!delay_ms(0, 1, 999));
    assert_eq!(ArmInterrupt::IRQ, ArmInterrupt::IRQ);
}

#[test]
fn x86_entries() {
    let mut pde = PageDirectoryEntry::new();
    pde.set_present(true);
    pde.set_page_size(true);
    assert!(pde.is_present() && pde.is_4mb());
    pde.set_user_accessible(true);
    pde.set_write_through(true);
    pde.set_cache_disabled(true);
    pde.set_accessed(true);
    pde.set_dirty(true);
    pde.set_writable(true);
    assert_eq!(format!("{:?}", pde), format!("PageDirectoryEntry({})", 0xFFu32));
    pde.set_address(x86::PhysAddr(0x1234_5678));
    assert_eq!(format!("{:?}", pde), format!("PageDirectoryEntry({})", 0x1234_50FFu32));
    pde.set_present(false);
    assert!(!pde.is_present());
}

#[test]
fn x86_large_page_mapping() {
    let mut dir = PageDirectory::new();
    x86_map_page(&mut dir, x86::VirtAddr(0xC040_0000), x86::PhysAddr(0x0040_0000), true, false);
    assert_eq!(format!("{:?}", dir.entry(0x301)), format!("PageDirectoryEntry({})", 0x0040_0083u32));
    // an existing large page is mapped anew
    x86_map_page(&mut dir, x86::VirtAddr(0xC040_0000), x86::PhysAddr(0x0080_0000), false, true);
    assert_eq!(format!("{:?}", dir.entry(0x301)), format!("PageDirectoryEntry({})", 0x0080_0085u32));
}

#[test]
fn x86_pic_and_gdt() {
    let init = X86InterruptController::init_writes();
    assert_eq!(init.len(), 10);
    assert_eq!(init[0], PortWrite { port: 0x20, value: 0x11 });
    assert_eq!(init[9], PortWrite { port: 0xA1, value: 0xFF });
    assert_eq!(X86InterruptController::mask_port(3), 0x21);
    assert_eq!(X86InterruptController::mask_port(12), 0xA1);
    assert_eq!(X86InterruptController::enable_mask(1, 0xFF), 0xFD);
    assert_eq!(X86InterruptController::enable_mask(12, 0xFF), 0xEF);
    assert_eq!(X86InterruptController::disable_mask(0, 0x00), 0x01);
    assert_eq!(X86InterruptController::eoi_writes(3), vec![PortWrite { port: 0x20, value: 0x20 }]);
    assert_eq!(
        X86InterruptController::eoi_writes(9),
        vec![PortWrite { port: 0xA0, value: 0x20 }, PortWrite { port: 0x20, value: 0x20 }]
    );
    let _g = GdtEntry::new(0x1234_5678, 0xF_FFFF, 0x9A, 0xCF);
    let mut t = <x86::X86 as MemoryManagement>::create_page_table();
    assert_eq!(<x86::X86 as MemoryManagement>::map_page(&mut t, x86::VirtAddr(0x3000), x86::PhysAddr(0x7000), 2), Ok(()));
}

#[test]
fn x86_idt() {
    let handlers: Vec<u32> = (0..18).map(|i| 0x1000 + i as u32).collect();
    let idt: Idt = init_idt(&handlers);
    let _ = idt;
    let _e = IdtEntry::new(0xDEAD_BEEF, 0x08, 3);
    let mut t = Idt::new();
    t.set_handler(IDT_ENTRIES, 5);
    t.set_handler(14, 0x4000);
}

#[test]
fn x86_64_cpuid() {
    // "GenuineIntel": EBX "Genu", EDX "ineI", ECX "ntel"
    assert_eq!(get_cpu_vendor(0x756E_6547, 0x4965_6E69, 0x6C65_746E), "Intel");
    // "AuthenticAMD": EBX "Auth", EDX "enti", ECX "cAMD"
    assert_eq!(get_cpu_vendor(0x6874_7541, 0x6974_6E65, 0x444D_4163), "AMD");
    assert_eq!(get_cpu_vendor(0, 0, 0), "Unknown");
    assert!(has_feature(CpuFeature::SSE, 0, 1 << 25));
    assert!(has_feature(CpuFeature::SSE2, 0, 1 << 26));
    assert!(!has_feature(CpuFeature::SSE2, 1 << 26, 0));
    assert!(has_feature(CpuFeature::AVX, 1 << 28, 0));
    assert!(has_feature(CpuFeature::AES, 1 << 25, 0));
}

#[test]
fn architecture_names() {
    assert_eq!(get_architecture_info("x86_64"), "x86_64 (64-bit Intel/AMD)");
    assert_eq!(get_architecture_info("x86"), "x86 (32-bit Intel/AMD)");
    assert_eq!(get_architecture_info("arm"), "ARM (32-bit)");
    assert_eq!(get_architecture_info("aarch64"), "AArch64 (64-bit ARM)");
    assert_eq!(get_architecture_info("riscv64"), "Unknown architecture");
    assert_eq!(is_64bit(), std::mem::size_of::<usize>() == 8);
    assert_eq!(get_cpu_info().vendor, "Unknown");
    assert_eq!(RegisterContext::new().general_purpose, [0; 16]);
}

#[test]
fn multiboot_checksum() {
    let h = Multiboot1Header::new();
    let text = format!("{:?}", std::mem::size_of_val(&h));
    assert_eq!(text, "32");
}

#[test]
fn early_console_wraps_to_last_line() {
    let mut c = EarlyConsole::new();
    let cells = c.early_print("ab\ncd");
    let idx: Vec<(usize, u8)> = cells.iter().map(|v| (v.index, v.byte)).collect();
    assert_eq!(idx, vec![(0, b'a'), (1, b'b'), (80, b'c'), (81, b'd')]);
    let long = "\n".repeat(30);
    c.early_print(&long);
    let cells = c.early_print("z");
    assert_eq!(cells[0].index, 24 * 80);
}

#[test]
fn bootloader_print_and_defaults() {
    let cells = bootloader::early_print("hi\nyo");
    let idx: Vec<(usize, u8)> = cells.iter().map(|v| (v.index, v.byte)).collect();
    assert_eq!(idx, vec![(0, b'h'), (1, b'i'), (80, b'y'), (81, b'o')]);
    let info = BootInfo::default();
    assert_eq!(info.physical_memory_offset, 0xffff_8000_0000_0000);
    assert_eq!(info.memory_map.iter().len(), 2);
    let r = MemoryRegion { region_type: MemoryRegionType::Usable, start: 10, end: 20 };
    assert_eq!(r.range(), 10..20);
    assert_eq!((r.start_addr(), r.end_addr()), (10, 20));
}

#[test]
fn frame_allocators() {
    assert_eq!(PhysFrame::containing_address(0x1234).start_address, 0x1000);
    let map = MemoryMap::from_regions(vec![
        MemoryRegion { region_type: MemoryRegionType::Reserved, start: 0, end: 0x1000 },
        MemoryRegion { region_type: MemoryRegionType::Usable, start: 0x2000, end: 0x4000 },
    ]);
    let mut a = BootInfoFrameAllocator::init(&map);
    assert_eq!(a.allocate_frame(), Some(PhysFrame { start_address: 0x2000 }));
    assert_eq!(a.allocate_frame(), Some(PhysFrame { start_address: 0x3000 }));
    assert_eq!(a.allocate_frame(), None);
    let mut d = BootInfoFrameAllocator::init_default();
    assert_eq!(d.allocate_frame(), Some(PhysFrame { start_address: 0x100000 }));
    let info = PageFaultInfo { virtual_address: 1, error_code: 2, instruction_pointer: 3 };
    assert_eq!(handle_page_fault(info), Err("Page fault not handled"));
}

#[test]
fn physical_memory_manager_reuses_freed_frames() {
    let mut m = PhysicalMemoryManager::new();
    assert_eq!(m.allocate_frame(), None);
    m.add_free_region(0x10000, 0x2000);
    let f = m.allocate_frame().unwrap();
    assert_eq!(f.start_address, 0x11000);
    m.deallocate_frame(f);
    assert_eq!(m.allocate_frame(), Some(f));
}

#[test]
fn keyboard_ring_buffer_fifo() {
    let mut k = KeyboardManager::new();
    assert!(!k.has_key());
    assert_eq!(k.read_key(), None);
    k.add_key(1);
    k.add_key(2);
    assert!(k.has_key());
    assert_eq!(k.read_key(), Some(1));
    assert_eq!(k.read_key(), Some(2));
    assert_eq!(k.read_key(), None);
    for i in 0..300u32 {
        k.add_key(i as u8);
    }
    let mut n = 0;
    while k.read_key().is_some() {
        n += 1;
    }
    assert_eq!(n, 255);
}

#[test]
fn scancode_decoding() {
    let mut d = ScancodeDecoder::new();
    assert_eq!(process_scancode(&mut d, 0x1E), Some(pc_keyboard::DecodedKey::Unicode('a')));
    assert_eq!(process_scancode(&mut d, 0x9E), None);
    // shift held
    assert_eq!(process_scancode(&mut d, 0x2A), Some(pc_keyboard::DecodedKey::RawKey(pc_keyboard::KeyCode::LShift)));
    assert_eq!(process_scancode(&mut d, 0x1E), Some(pc_keyboard::DecodedKey::Unicode('A')));
}

#[test]
fn qemu_exit_codes() {
    assert_eq!(QemuExitCode::Success.code(), 0x10);
    assert_eq!(QemuExitCode::Failed.code(), 0x11);
}

#[test]
fn heap_setup_without_mapping_succeeds() {
    assert_eq!(rustixos::memory::init_heap(&mut (), &mut ()), Ok(()));
}

#[test]
fn arm_access_permission_replaces_the_field() {
    let mut e = ArmDescriptor::new();
    e.set_section(arm::PhysAddr(0x1230_0000));
    e.set_access_permission(3);
    e.set_access_permission(0);
    assert_eq!(format!("{:?}", e), format!("PageTableEntry({})", 0x1230_0002u32));
}
