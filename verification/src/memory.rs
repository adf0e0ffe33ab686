//! Physical frame management: the frames a memory map makes usable, the
//! boot-time frame allocator, and a manager that hands frames out and
//! takes them back.

use vstd::prelude::*;
use crate::bootloader::{MemoryMap, MemoryRegion, MemoryRegionType};
use vstd::arithmetic::div_mod::{lemma_fundamental_div_mod, lemma_fundamental_div_mod_converse_mod};

verus! {

broadcast use vstd::std_specs::btree::group_btree_axioms;

pub const FRAME_SIZE: u64 = 4096;

/// The largest physical address plus one.
pub const PHYS_ADDR_LIMIT: u64 = 0x0010_0000_0000_0000;

/// A 4KiB frame of physical memory, by its start address.
#[derive(Debug, Clone, Copy, PartialEq, Eq, Structural)]
pub struct PhysFrame {
    pub start_address: u64,
}

impl PhysFrame {
    /// The frame that contains `addr`.
    pub fn containing_address(addr: u64) -> (ret: PhysFrame)
        ensures
            ret.start_address == addr - addr % 4096,
    {
        PhysFrame { start_address: addr - addr % 4096 }
    }
}

/// The frames from the frame at `start` up to the one before `end`, both
/// frame-aligned.
pub open spec fn frames_between(start: u64, end: u64) -> Seq<u64> {
    if start >= end {
        Seq::empty()
    } else {
        Seq::new(((end - start + 4095) / 4096) as nat, |i: int| (start + 4096 * i) as u64)
    }
}

/// The usable frames of a memory map, region by region.
pub open spec fn usable_frames(regions: Seq<MemoryRegion>) -> Seq<u64>
    decreases regions.len(),
{
    if regions.len() == 0 {
        Seq::empty()
    } else {
        let r = regions.last();
        usable_frames(regions.drop_last()) + if r.region_type == MemoryRegionType::Usable {
            frames_between((r.start / 4096 * 4096) as u64, (r.end / 4096 * 4096) as u64)
        } else {
            Seq::empty()
        }
    }
}

fn push_frames(frames: &mut Vec<u64>, start: u64, end: u64)
    requires
        start % 4096 == 0,
        end % 4096 == 0,
    ensures
        final(frames)@ == old(frames)@ + frames_between(start, end),
{
    let mut addr = start;
    while addr < end
        invariant
            start % 4096 == 0,
            end % 4096 == 0,
            start <= addr,
            addr % 4096 == 0,
            addr < end ==> addr + 4096 <= end,
            addr >= end ==> addr == start || addr == end,
            frames@ == old(frames)@ + frames_between(start, addr),
        decreases end - addr,
    {
        frames.push(addr);
        proof {
            assert(frames_between(start, (addr + 4096) as u64) =~= frames_between(start, addr).push(
                addr,
            ));
        }
        addr = addr + 4096;
    }
    proof {
        if start < end {
            assert(addr == end);
        }
    }
}

/// Hands out the usable frames of a memory map, in order, once each.
pub struct BootInfoFrameAllocator {
    usable_frames: Vec<u64>,
    next: usize,
}

impl BootInfoFrameAllocator {
    /// The frames still to hand out, in order.
    pub closed spec fn remaining(&self) -> Seq<u64> {
        self.usable_frames@.skip(self.next as int)
    }

    pub closed spec fn wf(&self) -> bool {
        self.next <= self.usable_frames.len()
    }

    /// An allocator of the usable regions of `memory_map`.
    pub fn init(memory_map: &MemoryMap) -> (ret: Self)
        ensures
            ret.wf(),
            ret.remaining() == usable_frames(memory_map@),
    {
        let regions = memory_map.iter();
        let mut frames: Vec<u64> = Vec::new();
        let mut k: usize = 0;
        while k < regions.len()
            invariant
                k <= regions@.len(),
                regions@ == memory_map@,
                frames@ == usable_frames(regions@.subrange(0, k as int)),
            decreases regions@.len() - k,
        {
            let region = regions[k];
            proof {
                assert(regions@.subrange(0, k + 1).drop_last() =~= regions@.subrange(0, k as int));
            }
            if region.region_type == MemoryRegionType::Usable {
                let start_addr = (region.start / 4096) * 4096;
                let end_addr = (region.end / 4096) * 4096;
                push_frames(&mut frames, start_addr, end_addr);
            }
            k = k + 1;
        }
        assert(regions@.subrange(0, regions@.len() as int) =~= regions@);
        let ret = BootInfoFrameAllocator { usable_frames: frames, next: 0 };
        assert(ret.remaining() =~= usable_frames(memory_map@));
        ret
    }

    /// An allocator of the memory from 1MB to 256MB, the rest of the
    /// first megabyte being BIOS, VGA and ROM memory.
    pub fn init_default() -> (ret: Self)
        ensures
            ret.wf(),
            ret.remaining() == frames_between(0x100000, 0x10000000),
    {
        let mut frames: Vec<u64> = Vec::new();
        push_frames(&mut frames, 0x100000, 0x10000000);
        let ret = BootInfoFrameAllocator { usable_frames: frames, next: 0 };
        assert(ret.remaining() =~= frames_between(0x100000, 0x10000000));
        ret
    }

    /// The next usable frame, if any is left.
    pub fn allocate_frame(&mut self) -> (ret: Option<PhysFrame>)
        requires
            old(self).wf(),
        ensures
            final(self).wf(),
            old(self).remaining().len() == 0 ==> ret is None && final(self).remaining() == old(
                self,
            ).remaining(),
            old(self).remaining().len() > 0 ==> ret == Some(
                (PhysFrame { start_address: old(self).remaining()[0] }),
            ) && final(self).remaining() == old(self).remaining().drop_first(),
    {
        if self.next < self.usable_frames.len() {
            let frame = self.usable_frames[self.next];
            self.next = self.next + 1;
            assert(self.remaining() =~= old(self).remaining().drop_first());
            Some(PhysFrame { start_address: frame })
        } else {
            None
        }
    }
}

/// Every frame the boot allocator hands out is frame-aligned and lies in a
/// region that the memory map marks usable: from that region's start,
/// rounded down to a frame, to before its end. No frame of a reserved,
/// ACPI, bad, firmware, bootloader or kernel region is handed out.
pub proof fn lemma_usable_frames_in_usable_regions(regions: Seq<MemoryRegion>, j: int)
    requires
        0 <= j < usable_frames(regions).len(),
    ensures
        usable_frames(regions)[j] % 4096 == 0,
        exists|i: int|
            0 <= i < regions.len() && (#[trigger] regions[i]).region_type == MemoryRegionType::Usable
                && regions[i].start / 4096 * 4096 <= usable_frames(regions)[j] && usable_frames(regions)[j]
                < regions[i].end,
    decreases regions.len(),
{
    let pre = usable_frames(regions.drop_last());
    let r = regions.last();
    let f = usable_frames(regions)[j];
    if j < pre.len() {
        lemma_usable_frames_in_usable_regions(regions.drop_last(), j);
        assert(f == pre[j]);
        let i = choose|i: int|
            0 <= i < regions.drop_last().len() && (#[trigger] regions.drop_last()[i]).region_type
                == MemoryRegionType::Usable && regions.drop_last()[i].start / 4096 * 4096 <= pre[j]
                && pre[j] < regions.drop_last()[i].end;
        assert(regions[i] == regions.drop_last()[i]);
    } else {
        let s0 = (r.start / 4096 * 4096) as u64;
        let e0 = (r.end / 4096 * 4096) as u64;
        lemma_fundamental_div_mod(r.start as int, 4096);
        lemma_fundamental_div_mod(r.end as int, 4096);
        assert(r.region_type == MemoryRegionType::Usable && s0 < e0) by {
            if !(r.region_type == MemoryRegionType::Usable) || s0 >= e0 {
                assert(usable_frames(regions) =~= pre);
            }
        }
        let part = frames_between(s0, e0);
        let m = j - pre.len();
        let d = e0 - s0;
        assert(f == part[m]);
        lemma_fundamental_div_mod(d + 4095, 4096);
        let q = (d + 4095) / 4096;
        assert(4096 * m < d) by (nonlinear_arith)
            requires
                0 <= m < q,
                d + 4095 == 4096 * q + (d + 4095) % 4096,
                0 <= (d + 4095) % 4096 < 4096,
        ;
        assert(f == s0 + 4096 * m);
        lemma_fundamental_div_mod_converse_mod(f as int, 4096, r.start / 4096 + m, 0);
        assert(regions[regions.len() - 1] == r);
    }
}

/// Where and why a page fault happened.
#[derive(Debug, Clone, Copy, PartialEq, Eq, Structural)]
pub struct PageFaultInfo {
    pub virtual_address: u64,
    pub error_code: u64,
    pub instruction_pointer: u64,
}

/// Page faults are not resolved: every one is reported back.
pub fn handle_page_fault(info: PageFaultInfo) -> (ret: Result<(), &'static str>)
    ensures
        ret matches Err(e) && e@ == "Page fault not handled"@,
{
    Err("Page fault not handled")
}

/// Frames free to hand out, and the frames handed out.
pub struct PhysicalMemoryManager {
    free_frames: Vec<u64>,
    allocated_frames: std::collections::BTreeSet<u64>,
}

impl PhysicalMemoryManager {
    /// The free frames; the last is handed out first.
    pub closed spec fn free(&self) -> Seq<u64> {
        self.free_frames@
    }

    /// The frames handed out and not given back.
    pub closed spec fn allocated(&self) -> Set<u64> {
        self.allocated_frames@
    }

    pub fn new() -> (ret: Self)
        ensures
            ret.free() == Seq::<u64>::empty(),
            ret.allocated() == Set::<u64>::empty(),
    {
        PhysicalMemoryManager {
            free_frames: Vec::new(),
            allocated_frames: std::collections::BTreeSet::new(),
        }
    }

    /// Adds the frames of the `size` bytes from `start` to the free list,
    /// the frame containing `start` first.
    pub fn add_free_region(&mut self, start: u64, size: u64)
        requires
            size >= 1,
            start + size - 1 < PHYS_ADDR_LIMIT,
        ensures
            final(self).allocated() == old(self).allocated(),
            final(self).free() == old(self).free() + frames_between(
                (start - start % 4096) as u64,
                ((start + size - 1) - (start + size - 1) % 4096 + 4096) as u64,
            ),
    {
        let start_frame = PhysFrame::containing_address(start);
        let end_frame = PhysFrame::containing_address(start + size - 1);
        let mut frames = Vec::new();
        push_frames(&mut frames, start_frame.start_address, end_frame.start_address + 4096);
        let mut i: usize = 0;
        while i < frames.len()
            invariant
                i <= frames@.len(),
                self.free_frames@ == old(self).free_frames@ + frames@.subrange(0, i as int),
                self.allocated_frames@ == old(self).allocated_frames@,
            decreases frames@.len() - i,
        {
            self.free_frames.push(frames[i]);
            assert(frames@.subrange(0, i + 1) =~= frames@.subrange(0, i as int).push(frames@[i as int]));
            i = i + 1;
        }
        assert(frames@.subrange(0, frames@.len() as int) =~= frames@);
    }

    /// Hands out the last free frame and records it as allocated.
    pub fn allocate_frame(&mut self) -> (ret: Option<PhysFrame>)
        ensures
            old(self).free().len() == 0 ==> ret is None && final(self).free() == old(self).free()
                && final(self).allocated() == old(self).allocated(),
            old(self).free().len() > 0 ==> ret == Some(
                (PhysFrame { start_address: old(self).free().last() }),
            ) && final(self).free() == old(self).free().drop_last() && final(self).allocated()
                == old(self).allocated().insert(old(self).free().last()),
    {
        match self.free_frames.pop() {
            Some(frame) => {
                self.allocated_frames.insert(frame);
                Some(PhysFrame { start_address: frame })
            },
            None => None,
        }
    }

    /// Takes an allocated frame back onto the free list; a frame not
    /// allocated is ignored.
    pub fn deallocate_frame(&mut self, frame: PhysFrame)
        ensures
            old(self).allocated().contains(frame.start_address) ==> final(self).allocated() == old(
                self,
            ).allocated().remove(frame.start_address) && final(self).free() == old(self).free().push(
                frame.start_address,
            ),
            !old(self).allocated().contains(frame.start_address) ==> final(self).allocated() == old(
                self,
            ).allocated() && final(self).free() == old(self).free(),
    {
        if self.allocated_frames.remove(&frame.start_address) {
            self.free_frames.push(frame.start_address);
        }
    }
}

/// Sets up the kernel heap on architectures whose heap needs no mapping:
/// there is nothing to do, and it succeeds.
pub fn init_heap(_mapper: &mut (), _frame_allocator: &mut ()) -> (ret: Result<(), ()>)
    ensures
        ret is Ok,
{
    Ok(())
}

/// Giving back a frame just handed out restores the allocated set, and
/// puts the frame back at the end of the free list.
pub proof fn lemma_deallocate_undoes_allocate(free: Seq<u64>, allocated: Set<u64>)
    requires
        free.len() > 0,
        !allocated.contains(free.last()),
    ensures
        allocated.insert(free.last()).remove(free.last()) == allocated,
        free.drop_last().push(free.last()) == free,
{
    assert(allocated.insert(free.last()).remove(free.last()) =~= allocated);
    assert(free.drop_last().push(free.last()) =~= free);
}

} // verus!
