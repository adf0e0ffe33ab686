//! Where early boot messages go on the 80x25 VGA text screen: each byte
//! takes the next cell, a line break moves to the start of the next line,
//! and output past the bottom stays on the last line.

use vstd::prelude::*;
use vstd::string::StringSliceAdditionalSpecFns;

verus! {

/// Cells per line.
pub const VGA_WIDTH: usize = 80;
/// Lines on the screen.
pub const VGA_HEIGHT: usize = 25;
/// The colour of early output: light cyan on black.
pub const EARLY_COLOR: u8 = 0x0B;

/// The cell after writing `byte` at `pos`, and the cell written, if any:
/// a line break ('\n' or '\r') moves to the next line's start, any other
/// byte takes the cell; past the last line, output goes back to the start
/// of the last line.
pub open spec fn console_step(pos: int, byte: u8) -> (int, Option<(int, u8)>) {
    let (next, cell) = if byte == 10 || byte == 13 {
        (((pos / 80) + 1) * 80, None)
    } else {
        (pos + 1, Some((pos, byte)))
    };
    (if next >= 2000 { 1920 } else { next }, cell)
}

/// The cell after writing `bytes` from `pos`, and the cells written, in
/// order.
pub open spec fn console_run(pos: int, bytes: Seq<u8>) -> (int, Seq<(int, u8)>)
    decreases bytes.len(),
{
    if bytes.len() == 0 {
        (pos, Seq::empty())
    } else {
        let (p, cells) = console_run(pos, bytes.drop_last());
        let (q, cell) = console_step(p, bytes.last());
        (
            q,
            match cell {
                Some(c) => cells.push(c),
                None => cells,
            },
        )
    }
}

/// A cell of the screen and the byte it gets.
#[derive(Debug, Clone, Copy, PartialEq, Eq, Structural)]
pub struct VgaCell {
    pub index: usize,
    pub byte: u8,
}

/// The text cursor of early boot output.
pub struct EarlyConsole {
    pos: usize,
}

impl EarlyConsole {
    /// The cell the next byte goes to.
    pub closed spec fn pos(&self) -> int {
        self.pos as int
    }

    /// The cursor is on the screen.
    pub closed spec fn wf(&self) -> bool {
        self.pos < 2000
    }

    /// A cursor at the top left.
    pub fn new() -> (ret: Self)
        ensures
            ret.wf(),
            ret.pos() == 0,
    {
        EarlyConsole { pos: 0 }
    }

    /// The cells that `s` fills, in order, each with its byte; the cursor
    /// moves on past them and stays on the screen.
    pub fn early_print(&mut self, s: &str) -> (ret: Vec<VgaCell>)
        requires
            old(self).wf(),
        ensures
            final(self).wf(),
            final(self).pos() == console_run(old(self).pos(), s.spec_bytes()).0,
            ret@.map_values(|c: VgaCell| (c.index as int, c.byte)) == console_run(
                old(self).pos(),
                s.spec_bytes(),
            ).1,
            forall|i: int| 0 <= i < ret@.len() ==> (#[trigger] ret@[i]).index < 2000,
    {
        let bytes = s.as_bytes();
        let mut cells: Vec<VgaCell> = Vec::new();
        let mut i: usize = 0;
        while i < bytes.len()
            invariant
                i <= bytes@.len(),
                bytes@ == s.spec_bytes(),
                self.wf(),
                (self.pos(), cells@.map_values(|c: VgaCell| (c.index as int, c.byte))) == console_run(
                    old(self).pos(),
                    bytes@.subrange(0, i as int),
                ),
                forall|j: int| 0 <= j < cells@.len() ==> (#[trigger] cells@[j]).index < 2000,
            decreases bytes@.len() - i,
        {
            let byte = bytes[i];
            proof {
                assert(bytes@.subrange(0, i + 1).drop_last() =~= bytes@.subrange(0, i as int));
                assert(bytes@.subrange(0, i + 1).last() == byte);
            }
            let ghost before = cells@;
            let next = if byte == 10 || byte == 13 {
                ((self.pos / VGA_WIDTH) + 1) * VGA_WIDTH
            } else {
                cells.push(VgaCell { index: self.pos, byte });
                self.pos + 1
            };
            self.pos = if next >= VGA_WIDTH * VGA_HEIGHT {
                (VGA_HEIGHT - 1) * VGA_WIDTH
            } else {
                next
            };
            proof {
                if !(byte == 10 || byte == 13) {
                    assert(cells@.map_values(|c: VgaCell| (c.index as int, c.byte)) =~= before.map_values(
                        |c: VgaCell| (c.index as int, c.byte),
                    ).push((cells@.last().index as int, byte)));
                }
            }
            i = i + 1;
        }
        assert(bytes@.subrange(0, bytes@.len() as int) =~= bytes@);
        cells
    }
}

} // verus!
