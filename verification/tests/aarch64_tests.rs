use rustixos::arch::aarch64::cpu::{calculate_cache_size, CacheRegisters, CpuIdRegisters};
use rustixos::arch::aarch64::timer::PeriodicTimer;
use rustixos::arch::aarch64::boot::{
    cpacr_with_fp_simd, early_init, mair_el1_value, parse_device_tree, sctlr_el1_value, tcr_el1_value,
    BootInfo, BOOT_MAGIC, BOOT_MAIR_EL1, BOOT_TCR_EL1, SCTLR_CLEAR_BITS, SCTLR_SET_BITS,
};
use rustixos::arch::aarch64::exception::{
    classify_interrupt, classify_sync_exception, interrupts_enabled_from_daif, is_timer_ppi,
    special_interrupt_message, DataAbortInfo, ExceptionClass, ExceptionInfo, InstructionAbortInfo,
    InterruptKind, SyncExceptionKind, SyscallInfo,
};
use rustixos::arch::aarch64::gic::{
    detect_gic_version, get_current_cpu_id, GicCpuInterface, GicDistributor, GicVersion, MmioWrite,
};
use rustixos::arch::aarch64::memory::{
    AsidManager, MemoryMapper, PageFlags, PageTableEntry, PageTableWalker, PAGE_READABLE,
    PAGE_WRITABLE,
};
use rustixos::arch::aarch64::timer::{handle_timer_interrupt, GenericTimer, TimerProgram, TimerType, WatchdogTimer};
use rustixos::arch::aarch64::{PhysAddr, VirtAddr};

#[test]
fn walk_after_map_gives_the_mapped_address() {
    let mut mapper = MemoryMapper::new();
    let flags = PageFlags(PAGE_READABLE | PAGE_WRITABLE);
    assert_eq!(mapper.map_page(VirtAddr::new(0x1000), PhysAddr::new(0x20_0000), flags), Ok(()));
    let walker = PageTableWalker::new(mapper.mmu.ttbr0_el1, mapper.mmu.ttbr1_el1);
    let pa = walker.walk(&mapper.tables, VirtAddr::new(0x1234)).unwrap();
    assert_eq!(pa.as_u64(), 0x20_0234);
}

#[test]
fn unmap_after_map_makes_the_walk_fail() {
    let mut mapper = MemoryMapper::new();
    let flags = PageFlags(PAGE_READABLE);
    mapper.map_page(VirtAddr::new(0x1000), PhysAddr::new(0x30_0000), flags).unwrap();
    assert_eq!(mapper.unmap_page(VirtAddr::new(0x1000)), Ok(()));
    let walker = PageTableWalker::new(mapper.mmu.ttbr0_el1, mapper.mmu.ttbr1_el1);
    assert_eq!(walker.walk(&mapper.tables, VirtAddr::new(0x1000)), Err("L3 entry not valid"));
}

#[test]
fn walk_and_unmap_of_empty_tables_fail_at_level_zero() {
    let mut mapper = MemoryMapper::new();
    let walker = PageTableWalker::new(PhysAddr::new(0), PhysAddr::new(0));
    assert_eq!(walker.walk(&mapper.tables, VirtAddr::new(0x5000)), Err("L0 entry not valid"));
    assert_eq!(mapper.unmap_page(VirtAddr::new(0x5000)), Err("L0 entry not valid"));
}

#[test]
fn mmu_init_values() {
    let mut mapper = MemoryMapper::new();
    assert_eq!(mapper.init(0x30D0_0800), Ok(()));
    assert_eq!(mapper.mmu.mair_el1, 0x0000_BBFF_440C_0400);
    assert_eq!(mapper.mmu.tcr_el1, 0x0000_00C2_B519_3519);
    assert_eq!(mapper.mmu.sctlr_el1, 0x30D0_0800 | 0x1005);
    assert_eq!(mapper.mmu.disable(), Ok(()));
    assert_eq!(mapper.mmu.sctlr_el1 & 1, 0);
}

#[test]
fn page_table_entry_fields() {
    let mut e = PageTableEntry::new();
    assert!(!e.is_valid());
    e.set_physical_address(PhysAddr::new(0x1234_5678));
    assert_eq!(e.physical_address().as_u64(), 0x1234_5000);
    e.set_valid(true);
    e.set_table();
    assert!(e.is_valid() && e.is_table());
    e.set_block();
    assert!(e.is_block());
    e.clear();
    assert_eq!(e.raw(), 0);
}

#[test]
fn page_flags_sets() {
    let rw = PageFlags(PAGE_READABLE).union(PageFlags(PAGE_WRITABLE));
    assert_eq!(rw, PageFlags(3));
    assert!(rw.contains(PageFlags(PAGE_WRITABLE)));
    assert!(!PageFlags(PAGE_READABLE).contains(rw));
}

#[test]
fn asids_wrap_around() {
    let mut asids = AsidManager::new(0);
    assert_eq!(asids.allocate_asid(), 1);
    assert_eq!(asids.allocate_asid(), 2);
    for _ in 3..=255u32 {
        asids.allocate_asid();
    }
    assert_eq!(asids.allocate_asid(), 1);
    let mut wide = AsidManager::new(0x20);
    assert_eq!(wide.allocate_asid(), 1);
    wide.free_asid(1);
    assert_eq!(wide.allocate_asid(), 2);
}

#[test]
fn exception_info_from_registers() {
    // EC 0x15 (SVC64), IL set, ISS 0x42
    let esr = (0x15u64 << 26) | (1 << 25) | 0x42;
    let info = ExceptionInfo::from_registers(esr, 0x8000, 0x9000, 0x3c5);
    assert_eq!(info.class, ExceptionClass::Svc64);
    assert!(info.il);
    assert_eq!(info.iss, 0x42);
    assert_eq!((info.elr, info.far, info.spsr), (0x8000, 0x9000, 0x3c5));
    match classify_sync_exception(&info) {
        SyncExceptionKind::Syscall(s) => assert_eq!(s.imm16, 0x42),
        other => panic!("unexpected {:?}", other),
    }
}

#[test]
fn exception_class_codes_round_trip() {
    for code in 0u32..0x40 {
        let class = ExceptionClass::from(code);
        if class != ExceptionClass::Unknown {
            assert_eq!(class.code(), code);
        }
    }
    assert_eq!(ExceptionClass::from(0x25), ExceptionClass::DataAbortSame);
    assert_eq!(ExceptionClass::from(0x02), ExceptionClass::Unknown);
}

#[test]
fn data_abort_decoding() {
    let iss = 0x07 | 0x40 | (3 << 16);
    let d = DataAbortInfo::from_iss(iss);
    assert_eq!(d.dfsc, 7);
    assert!(d.wnr);
    assert_eq!(d.srt, 3);
    assert_eq!(d.fault_type(), "Translation fault, level 3");
    assert_eq!(DataAbortInfo::from_iss(0x21).fault_type(), "Alignment fault");
    assert_eq!(DataAbortInfo::from_iss(0x3F).fault_type(), "Unknown fault");
    let ia = InstructionAbortInfo::from_iss(0x0D | 0x200);
    assert_eq!(ia.ifsc, 0x0D);
    assert!(ia.ea);
    assert_eq!(SyscallInfo::from_iss(0x1_2345).imm16, 0x2345);
}

#[test]
fn sync_exception_routing() {
    let info = ExceptionInfo::from_registers(0x25u64 << 26 | 0x45, 0, 0, 0);
    match classify_sync_exception(&info) {
        SyncExceptionKind::DataAbort(d) => {
            assert_eq!(d.dfsc, 5);
            assert!(d.wnr);
        }
        other => panic!("unexpected {:?}", other),
    }
    let brk = ExceptionInfo::from_registers(0x3Cu64 << 26, 0, 0, 0);
    assert!(matches!(classify_sync_exception(&brk), SyncExceptionKind::BrkInstruction));
    let unk = ExceptionInfo::from_registers(0x07u64 << 26, 0, 0, 0);
    assert!(matches!(classify_sync_exception(&unk), SyncExceptionKind::Unknown));
}

#[test]
fn interrupt_routing() {
    assert_eq!(classify_interrupt(3), InterruptKind::Sgi);
    assert_eq!(classify_interrupt(27), InterruptKind::Ppi);
    assert_eq!(classify_interrupt(32), InterruptKind::Spi);
    assert_eq!(classify_interrupt(1019), InterruptKind::Spi);
    assert_eq!(classify_interrupt(1023), InterruptKind::Special);
    assert_eq!(classify_interrupt(1024), InterruptKind::Invalid);
    assert!(is_timer_ppi(27) && is_timer_ppi(30) && !is_timer_ppi(26));
    assert_eq!(special_interrupt_message(1023), "Spurious interrupt");
    assert_eq!(special_interrupt_message(1020), "Reserved interrupt");
    assert_eq!(special_interrupt_message(5), "Unknown special interrupt");
    assert!(interrupts_enabled_from_daif(0x0));
    assert!(!interrupts_enabled_from_daif(0x80));
}

#[test]
fn gic_distributor_setup() {
    let d = GicDistributor::new(0x0800_0000, GicVersion::GicV2, 0x22).unwrap();
    assert_eq!(d.num_interrupts, 96);
    assert_eq!(d.num_cpus, 2);
    assert_eq!(d.enable_interrupt(33), Some(MmioWrite { addr: 0x0800_0000 + 0x100 + 4, value: 1 << 1 }));
    assert_eq!(d.disable_interrupt(0), Some(MmioWrite { addr: 0x0800_0000 + 0x180, value: 1 }));
    assert_eq!(d.enable_interrupt(96), None);
    let (writes, result) = d.init();
    assert_eq!(result, Ok(()));
    assert_eq!(writes.first(), Some(&MmioWrite { addr: 0x0800_0000, value: 0 }));
    assert_eq!(writes.last(), Some(&MmioWrite { addr: 0x0800_0000, value: 1 }));
    let unknown = GicDistributor::new(0x0800_0000, GicVersion::Unknown, 0).unwrap();
    assert!(unknown.init().1.is_err());
}

#[test]
fn gic_cpu_interface_and_version() {
    let c = GicCpuInterface::new(0x0801_0000).unwrap();
    assert_eq!(c.get_interrupt_id(0x1C1B), 0x01B);
    assert_eq!(c.end_of_interrupt(27), MmioWrite { addr: 0x0801_0000 + 0x10, value: 27 });
    assert_eq!(detect_gic_version(0), GicVersion::Unknown);
    assert_eq!(detect_gic_version(1 << 24), GicVersion::GicV3);
    assert_eq!(detect_gic_version(2 << 24), GicVersion::GicV4);
    assert_eq!(get_current_cpu_id(0x8000_0102), 2);
}

#[test]
fn generic_timer_conversions() {
    let mut t = GenericTimer::new();
    assert_eq!(t.init(0), Err("Timer frequency is zero"));
    assert!(!t.is_enabled());
    assert_eq!(t.init(1_000_000), Ok(()));
    assert!(t.is_enabled());
    assert_eq!(t.get_frequency(), 1_000_000);
    assert_eq!(t.ticks_to_ms(2_500_000), 2500);
    assert_eq!(t.ticks_to_us(3), 3);
    assert_eq!(t.ticks_to_ns(3), 3000);
    assert_eq!(t.ms_to_ticks(7), 7000);
    assert_eq!(t.us_to_ticks(7), 7);
    assert_eq!(t.ns_to_ticks(7000), 7);
    assert_eq!(t.get_uptime_ms(5_000_000), 5000);
    assert_eq!(
        t.clear_virtual_timer_interrupt(10),
        TimerProgram { timer: TimerType::Virtual, compare: 1_000_010, enable: false }
    );
}

#[test]
fn watchdog_lifecycle() {
    let mut t = GenericTimer::new();
    t.init(1000).unwrap();
    let mut w = WatchdogTimer::new(500, &t);
    assert!(!w.is_enabled());
    let p = w.start(100);
    assert!(w.is_enabled());
    assert!(p.enable);
    assert!(w.kick(200).is_some());
    w.stop();
    assert!(!w.is_enabled());
    assert!(w.kick(300).is_none());
}

#[test]
fn boot_register_values() {
    assert_eq!(sctlr_el1_value(0), SCTLR_SET_BITS);
    assert_eq!(sctlr_el1_value(u64::MAX), !SCTLR_CLEAR_BITS);
    assert_eq!(mair_el1_value(), BOOT_MAIR_EL1);
    assert_eq!((BOOT_MAIR_EL1 >> 32) & 0xFF, 0xFF);
    assert_eq!(tcr_el1_value(), BOOT_TCR_EL1);
    assert_eq!(BOOT_TCR_EL1 & 0x3F, 25);
    assert_eq!(cpacr_with_fp_simd(0), 0x30_0000);
}

#[test]
fn device_tree_header() {
    assert_eq!(parse_device_tree(&[0xd0, 0x0d, 0xfe, 0xed, 0, 0]), Ok(()));
    assert!(parse_device_tree(&[0xd0, 0x0d]).is_err());
    assert!(parse_device_tree(&[1, 2, 3, 4]).is_err());
}

fn boot_info(magic: u32) -> BootInfo {
    BootInfo {
        magic,
        version: 1,
        memory_map_addr: 0,
        memory_map_size: 0,
        kernel_start: 0x4008_0000,
        kernel_end: 0x4008_2000,
        initrd_start: 0,
        initrd_size: 0,
        device_tree_addr: 0,
        device_tree_size: 0,
        command_line_addr: 0,
        command_line_size: 0,
        framebuffer_addr: 0,
        framebuffer_size: 0,
        framebuffer_width: 0,
        framebuffer_height: 0,
        framebuffer_pitch: 0,
        framebuffer_bpp: 0,
    }
}

#[test]
fn early_init_checks() {
    let mut mapper = MemoryMapper::new();
    assert_eq!(early_init(&boot_info(0), 1, &mut mapper, &[]), Err("Invalid boot magic"));
    assert_eq!(
        early_init(&boot_info(BOOT_MAGIC), 0, &mut mapper, &[]),
        Err("Running at EL0, need at least EL1")
    );
    assert_eq!(early_init(&boot_info(BOOT_MAGIC), 1, &mut mapper, &[]), Ok(()));
    let walker = PageTableWalker::new(mapper.mmu.ttbr0_el1, mapper.mmu.ttbr1_el1);
    assert_eq!(walker.walk(&mapper.tables, VirtAddr::new(0x4008_1010)).unwrap().as_u64(), 0x4008_1010);
}

#[test]
fn timer_interrupt_clears_pending_timers_virtual_first() {
    let mut t = GenericTimer::new();
    t.init(1000).unwrap();
    let both = handle_timer_interrupt(&t, true, 50, true, 70);
    assert_eq!(
        both,
        vec![
            TimerProgram { timer: TimerType::Virtual, compare: 1050, enable: false },
            TimerProgram { timer: TimerType::Physical, compare: 1070, enable: false },
        ]
    );
    let physical = handle_timer_interrupt(&t, false, 50, true, 70);
    assert_eq!(physical, vec![TimerProgram { timer: TimerType::Physical, compare: 1070, enable: false }]);
    assert!(handle_timer_interrupt(&t, false, 0, false, 0).is_empty());
}

#[test]
fn mapping_another_page_keeps_earlier_translations() {
    let mut mapper = MemoryMapper::new();
    let flags = PageFlags(PAGE_WRITABLE);
    mapper.map_page(VirtAddr::new(0x1000), PhysAddr::new(0x20_0000), flags).unwrap();
    mapper.map_page(VirtAddr::new(0x2000), PhysAddr::new(0x30_0000), flags).unwrap();
    let walker = PageTableWalker::new(mapper.mmu.ttbr0_el1, mapper.mmu.ttbr1_el1);
    assert_eq!(walker.walk(&mapper.tables, VirtAddr::new(0x1010)).unwrap().as_u64(), 0x20_0010);
    assert_eq!(walker.walk(&mapper.tables, VirtAddr::new(0x2020)).unwrap().as_u64(), 0x30_0020);
}

#[test]
fn cache_sizes_agree_at_boot_and_in_cpu_info() {
    let id = CpuIdRegisters { pfr0: 0, pfr1: 0, isar0: 0, isar1: 0, isar2: 0, mmfr0: 0, mmfr1: 0, mmfr2: 0, dfr0: 0 };
    let cache = CacheRegisters { clidr: 0b011_011, ccsidr_l1i: 0xFE01A, ccsidr_l1d: 0xFE01A, ccsidr_l2: 0x1FE03A, ccsidr_l3: 0 };
    assert_eq!(calculate_cache_size(0xFE01A), 32768);
    assert_eq!(rustixos::arch::aarch64::boot::decode_cache_size(0xFE01A), 32768);
    let boot = rustixos::arch::aarch64::boot::get_cpu_info(0, &id, &cache);
    assert_eq!(boot.cache_info.l1_instruction, Some(32768));
    assert_eq!(boot.cache_info.l1_data, Some(32768));
    assert_eq!(boot.cache_info.l2, Some(calculate_cache_size(0x1FE03A)));
    assert_eq!(boot.cache_info.l3, None);
    let info = rustixos::arch::aarch64::cpu::get_cpu_info(0, 0, 0, &id, &cache);
    assert_eq!(info.cache_info.l1_icache_size, Some(32768));
    assert_eq!(info.cache_info.l1_dcache_size, Some(32768));
    assert_eq!(info.cache_info.l3_cache_size, None);
    assert_eq!(info.cache_info.cache_line_size, 64);
}

#[test]
fn periodic_timer_moves_one_interval_per_interrupt() {
    let mut t = GenericTimer::new();
    t.init(1000).unwrap();
    let mut p = PeriodicTimer::new(10, TimerType::Physical, &t, 500);
    assert_eq!(p.interval_ticks, 10);
    assert_eq!(p.next_trigger, 510);
    for k in 1..=3u64 {
        let w = p.handle_interrupt();
        assert_eq!(w, TimerProgram { timer: TimerType::Physical, compare: 510 + k * 10, enable: true });
    }
    assert_eq!(p.next_trigger, 540);
    assert_eq!(p.interval_ticks, 10);
}

#[test]
fn tick_conversions_round_trip_and_agree() {
    let mut t = GenericTimer::new();
    t.init(62_500_000).unwrap();
    assert_eq!(t.ticks_to_ms(t.ms_to_ticks(7)), 7);
    assert_eq!(t.ms_to_ticks(3), t.us_to_ticks(3000));
    assert_eq!(t.ms_to_ticks(3), t.ns_to_ticks(3_000_000));
    assert!(t.ms_to_ticks(3) <= t.ms_to_ticks(4));
    let mut odd = GenericTimer::new();
    odd.init(1500).unwrap();
    assert_eq!(odd.ms_to_ticks(1), 1);
    assert_eq!(odd.ticks_to_ms(1), 0);
}

#[test]
fn asids_cycle_through_each_identifier_once() {
    let mut m = AsidManager::new(0);
    let mut seen = vec![false; 256];
    for _ in 0..255 {
        let a = m.allocate_asid() as usize;
        assert!(a >= 1 && a <= 255);
        assert!(!seen[a]);
        seen[a] = true;
    }
    assert_eq!(m.allocate_asid(), 1);
}
