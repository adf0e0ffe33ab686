//! x86 (32-bit) interrupt descriptor table.

use vstd::prelude::*;

verus! {

/// The number of gates in the table.
pub const IDT_ENTRIES: usize = 256;

/// A gate of the interrupt descriptor table.
#[derive(Debug, Clone, Copy)]
pub struct IdtEntry {
    offset_low: u16,
    selector: u16,
    zero: u8,
    type_attr: u8,
    offset_high: u16,
}

/// A gate's fields: handler bits 0-15, code selector, the zero byte, type
/// and attributes, handler bits 16-31.
pub type GateFields = (u16, u16, u8, u8, u16);

/// An entry for `handler` with code selector `selector`, type and
/// attributes 0x8E (in use, ring 0, 32-bit interrupt gate).
pub open spec fn gate(handler: u32, selector: u16) -> GateFields {
    ((handler & 0xFFFF) as u16, selector, 0u8, 0x8Eu8, ((handler >> 16u32) & 0xFFFF) as u16)
}

impl View for IdtEntry {
    type V = GateFields;

    closed spec fn view(&self) -> GateFields {
        (self.offset_low, self.selector, self.zero, self.type_attr, self.offset_high)
    }
}

impl IdtEntry {
    /// An entry for `handler` with code selector `selector`; its privilege
    /// level is 0 for every `dpl`.
    pub fn new(handler: u32, selector: u16, dpl: u8) -> (ret: Self)
        ensures
            ret@ == gate(handler, selector),
    {
        proof {
            crate::bits::lemma_u32_and_le(handler, 0xFFFF);
            crate::bits::lemma_u32_and_le(handler >> 16u32, 0xFFFF);
        }
        IdtEntry {
            offset_low: (handler & 0xFFFF) as u16,
            selector,
            zero: 0,
            type_attr: 0x8E,
            offset_high: ((handler >> 16) & 0xFFFF) as u16,
        }
    }
}

/// The operand of `lidt`: the table's size less one and its address.
pub struct IdtPointer {
    pub limit: u16,
    pub base: u32,
}

/// The interrupt descriptor table.
pub struct Idt {
    entries: [IdtEntry; IDT_ENTRIES],
}

impl View for Idt {
    type V = Seq<GateFields>;

    closed spec fn view(&self) -> Seq<GateFields> {
        self.entries@.map_values(|e: IdtEntry| e@)
    }
}

impl Idt {
    /// The table has 256 gates.
    pub proof fn lemma_gates(&self)
        ensures
            self@.len() == 256,
    {
    }

    /// A table of gates to address 0.
    pub fn new() -> (ret: Self)
        ensures
            ret@ == Seq::new(256, |i: int| gate(0, 0)),
    {
        let e = IdtEntry::new(0, 0, 0);
        let ret = Idt { entries: [e; IDT_ENTRIES] };
        assert(ret@ =~= Seq::new(256, |i: int| gate(0, 0)));
        ret
    }

    /// Points gate `index` at `handler` through the kernel code segment;
    /// an index past the table changes nothing.
    pub fn set_handler(&mut self, index: usize, handler: u32)
        ensures
            final(self)@.len() == 256,
            index < 256 ==> final(self)@ == old(self)@.update(index as int, gate(handler, 0x08)),
            index >= 256 ==> final(self)@ == old(self)@,
    {
        if index < IDT_ENTRIES {
            self.entries[index] = IdtEntry::new(handler, 0x08, 0);
            assert(self@ =~= old(self)@.update(index as int, gate(handler, 0x08)));
        }
    }
}

/// What the CPU pushes on an interrupt.
#[derive(Debug, Clone, Copy)]
pub struct InterruptStackFrame {
    pub instruction_pointer: u32,
    pub code_segment: u32,
    pub cpu_flags: u32,
    pub stack_pointer: u32,
    pub stack_segment: u32,
}

/// Which handler, if any, vector `v` gets.
pub open spec fn vector_slot(v: int) -> Option<int> {
    if 0 <= v <= 8 {
        Some(v)
    } else if 10 <= v <= 14 {
        Some(v - 1)
    } else if 16 <= v <= 19 {
        Some(v - 2)
    } else {
        None
    }
}

/// The table with the first `n` exception handlers installed.
pub open spec fn idt_with(handlers: Seq<u32>, n: int) -> Seq<GateFields> {
    Seq::new(
        256,
        |v: int|
            match vector_slot(v) {
                Some(j) => if j < n {
                    gate(handlers[j], 0x08)
                } else {
                    gate(0, 0)
                },
                None => gate(0, 0),
            },
    )
}

/// The table with the CPU-exception handlers installed: `handlers` holds
/// the addresses of the divide-error, debug, NMI, breakpoint, overflow,
/// bound-range, invalid-opcode, device-not-available, double-fault,
/// invalid-TSS, segment-not-present, stack-fault, general-protection,
/// page-fault, FPU-error, alignment-check, machine-check and SIMD
/// handlers, for vectors 0 to 8, 10 to 14 and 16 to 19. Loading it is left
/// to the caller.
pub fn init_idt(handlers: &[u32]) -> (ret: Idt)
    requires
        handlers@.len() == 18,
    ensures
        ret@ == idt_with(handlers@, 18),
{
    let mut idt = Idt::new();
    assert(idt@ =~= idt_with(handlers@, 0));
    let mut i: usize = 0;
    while i < 18
        invariant
            i <= 18,
            handlers@.len() == 18,
            idt@ == idt_with(handlers@, i as int),
        decreases 18 - i,
    {
        let vector = if i < 9 {
            i
        } else if i < 14 {
            i + 1
        } else {
            i + 2
        };
        idt.set_handler(vector, handlers[i]);
        assert(vector_slot(vector as int) == Some(i as int));
        assert forall|v: int| 0 <= v < 256 && vector_slot(v) == Some(i as int) implies v == vector by {}
        assert(idt@ =~= idt_with(handlers@, i + 1));
        i = i + 1;
    }
    idt
}

} // verus!
