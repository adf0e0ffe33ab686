//! AArch64 exception decoding: the exception class and syndrome of
//! ESR_EL1, abort details, and how synchronous exceptions and interrupt
//! identifiers are routed.

use vstd::prelude::*;
use crate::bits::{lemma_u64_and_le, lemma_u32_and_le};

verus! {

/// The exception class field of ESR_EL1.
#[derive(Debug, Clone, Copy, PartialEq, Eq, Structural)]
pub enum ExceptionClass {
    Unknown,
    WfiWfe,
    McpMrcCp15,
    McrrcMrrcCp15,
    McpMrcCp14,
    LdcStcCp14,
    FpAsimd,
    VmrsMrs,
    PauthTrap,
    LdStCp14,
    BranchTarget,
    IllegalExecution,
    Svc32,
    Hvc32,
    Smc32,
    Svc64,
    Hvc64,
    Smc64,
    MsrMrsSys64,
    SveAccess,
    EretTrap,
    PauthFail,
    InstructionAbortLower,
    InstructionAbortSame,
    PcAlignment,
    DataAbortLower,
    DataAbortSame,
    SpAlignment,
    FpException32,
    FpException64,
    SError,
    BreakpointLower,
    BreakpointSame,
    SoftwareStepLower,
    SoftwareStepSame,
    WatchpointLower,
    WatchpointSame,
    Bkpt32,
    VectorCatch32,
    Brk64,
}

/// The class that an exception class code stands for; codes without a
/// class of their own are `Unknown`.
pub open spec fn exception_class_of(value: u32) -> ExceptionClass {
    match value {
        0x00 => ExceptionClass::Unknown,
        0x01 => ExceptionClass::WfiWfe,
        0x03 => ExceptionClass::McpMrcCp15,
        0x04 => ExceptionClass::McrrcMrrcCp15,
        0x05 => ExceptionClass::McpMrcCp14,
        0x06 => ExceptionClass::LdcStcCp14,
        0x07 => ExceptionClass::FpAsimd,
        0x08 => ExceptionClass::VmrsMrs,
        0x09 => ExceptionClass::PauthTrap,
        0x0A => ExceptionClass::LdStCp14,
        0x0D => ExceptionClass::BranchTarget,
        0x0E => ExceptionClass::IllegalExecution,
        0x11 => ExceptionClass::Svc32,
        0x12 => ExceptionClass::Hvc32,
        0x13 => ExceptionClass::Smc32,
        0x15 => ExceptionClass::Svc64,
        0x16 => ExceptionClass::Hvc64,
        0x17 => ExceptionClass::Smc64,
        0x18 => ExceptionClass::MsrMrsSys64,
        0x19 => ExceptionClass::SveAccess,
        0x1A => ExceptionClass::EretTrap,
        0x1C => ExceptionClass::PauthFail,
        0x20 => ExceptionClass::InstructionAbortLower,
        0x21 => ExceptionClass::InstructionAbortSame,
        0x22 => ExceptionClass::PcAlignment,
        0x24 => ExceptionClass::DataAbortLower,
        0x25 => ExceptionClass::DataAbortSame,
        0x26 => ExceptionClass::SpAlignment,
        0x28 => ExceptionClass::FpException32,
        0x2C => ExceptionClass::FpException64,
        0x2F => ExceptionClass::SError,
        0x30 => ExceptionClass::BreakpointLower,
        0x31 => ExceptionClass::BreakpointSame,
        0x32 => ExceptionClass::SoftwareStepLower,
        0x33 => ExceptionClass::SoftwareStepSame,
        0x34 => ExceptionClass::WatchpointLower,
        0x35 => ExceptionClass::WatchpointSame,
        0x38 => ExceptionClass::Bkpt32,
        0x3A => ExceptionClass::VectorCatch32,
        0x3C => ExceptionClass::Brk64,
        _ => ExceptionClass::Unknown,
    }
}

/// The code of each class.
pub open spec fn exception_class_code(c: ExceptionClass) -> u32 {
    match c {
        ExceptionClass::Unknown => 0x00,
        ExceptionClass::WfiWfe => 0x01,
        ExceptionClass::McpMrcCp15 => 0x03,
        ExceptionClass::McrrcMrrcCp15 => 0x04,
        ExceptionClass::McpMrcCp14 => 0x05,
        ExceptionClass::LdcStcCp14 => 0x06,
        ExceptionClass::FpAsimd => 0x07,
        ExceptionClass::VmrsMrs => 0x08,
        ExceptionClass::PauthTrap => 0x09,
        ExceptionClass::LdStCp14 => 0x0A,
        ExceptionClass::BranchTarget => 0x0D,
        ExceptionClass::IllegalExecution => 0x0E,
        ExceptionClass::Svc32 => 0x11,
        ExceptionClass::Hvc32 => 0x12,
        ExceptionClass::Smc32 => 0x13,
        ExceptionClass::Svc64 => 0x15,
        ExceptionClass::Hvc64 => 0x16,
        ExceptionClass::Smc64 => 0x17,
        ExceptionClass::MsrMrsSys64 => 0x18,
        ExceptionClass::SveAccess => 0x19,
        ExceptionClass::EretTrap => 0x1A,
        ExceptionClass::PauthFail => 0x1C,
        ExceptionClass::InstructionAbortLower => 0x20,
        ExceptionClass::InstructionAbortSame => 0x21,
        ExceptionClass::PcAlignment => 0x22,
        ExceptionClass::DataAbortLower => 0x24,
        ExceptionClass::DataAbortSame => 0x25,
        ExceptionClass::SpAlignment => 0x26,
        ExceptionClass::FpException32 => 0x28,
        ExceptionClass::FpException64 => 0x2C,
        ExceptionClass::SError => 0x2F,
        ExceptionClass::BreakpointLower => 0x30,
        ExceptionClass::BreakpointSame => 0x31,
        ExceptionClass::SoftwareStepLower => 0x32,
        ExceptionClass::SoftwareStepSame => 0x33,
        ExceptionClass::WatchpointLower => 0x34,
        ExceptionClass::WatchpointSame => 0x35,
        ExceptionClass::Bkpt32 => 0x38,
        ExceptionClass::VectorCatch32 => 0x3A,
        ExceptionClass::Brk64 => 0x3C,
    }
}

impl ExceptionClass {
    /// The exception class code.
    pub fn code(&self) -> (ret: u32)
        ensures
            ret == exception_class_code(*self),
    {
        match self {
            ExceptionClass::Unknown => 0x00,
            ExceptionClass::WfiWfe => 0x01,
            ExceptionClass::McpMrcCp15 => 0x03,
            ExceptionClass::McrrcMrrcCp15 => 0x04,
            ExceptionClass::McpMrcCp14 => 0x05,
            ExceptionClass::LdcStcCp14 => 0x06,
            ExceptionClass::FpAsimd => 0x07,
            ExceptionClass::VmrsMrs => 0x08,
            ExceptionClass::PauthTrap => 0x09,
            ExceptionClass::LdStCp14 => 0x0A,
            ExceptionClass::BranchTarget => 0x0D,
            ExceptionClass::IllegalExecution => 0x0E,
            ExceptionClass::Svc32 => 0x11,
            ExceptionClass::Hvc32 => 0x12,
            ExceptionClass::Smc32 => 0x13,
            ExceptionClass::Svc64 => 0x15,
            ExceptionClass::Hvc64 => 0x16,
            ExceptionClass::Smc64 => 0x17,
            ExceptionClass::MsrMrsSys64 => 0x18,
            ExceptionClass::SveAccess => 0x19,
            ExceptionClass::EretTrap => 0x1A,
            ExceptionClass::PauthFail => 0x1C,
            ExceptionClass::InstructionAbortLower => 0x20,
            ExceptionClass::InstructionAbortSame => 0x21,
            ExceptionClass::PcAlignment => 0x22,
            ExceptionClass::DataAbortLower => 0x24,
            ExceptionClass::DataAbortSame => 0x25,
            ExceptionClass::SpAlignment => 0x26,
            ExceptionClass::FpException32 => 0x28,
            ExceptionClass::FpException64 => 0x2C,
            ExceptionClass::SError => 0x2F,
            ExceptionClass::BreakpointLower => 0x30,
            ExceptionClass::BreakpointSame => 0x31,
            ExceptionClass::SoftwareStepLower => 0x32,
            ExceptionClass::SoftwareStepSame => 0x33,
            ExceptionClass::WatchpointLower => 0x34,
            ExceptionClass::WatchpointSame => 0x35,
            ExceptionClass::Bkpt32 => 0x38,
            ExceptionClass::VectorCatch32 => 0x3A,
            ExceptionClass::Brk64 => 0x3C,
        }
    }
}

impl From<u32> for ExceptionClass {
    fn from(value: u32) -> (ret: Self) {
        match value {
            0x00 => ExceptionClass::Unknown,
            0x01 => ExceptionClass::WfiWfe,
            0x03 => ExceptionClass::McpMrcCp15,
            0x04 => ExceptionClass::McrrcMrrcCp15,
            0x05 => ExceptionClass::McpMrcCp14,
            0x06 => ExceptionClass::LdcStcCp14,
            0x07 => ExceptionClass::FpAsimd,
            0x08 => ExceptionClass::VmrsMrs,
            0x09 => ExceptionClass::PauthTrap,
            0x0A => ExceptionClass::LdStCp14,
            0x0D => ExceptionClass::BranchTarget,
            0x0E => ExceptionClass::IllegalExecution,
            0x11 => ExceptionClass::Svc32,
            0x12 => ExceptionClass::Hvc32,
            0x13 => ExceptionClass::Smc32,
            0x15 => ExceptionClass::Svc64,
            0x16 => ExceptionClass::Hvc64,
            0x17 => ExceptionClass::Smc64,
            0x18 => ExceptionClass::MsrMrsSys64,
            0x19 => ExceptionClass::SveAccess,
            0x1A => ExceptionClass::EretTrap,
            0x1C => ExceptionClass::PauthFail,
            0x20 => ExceptionClass::InstructionAbortLower,
            0x21 => ExceptionClass::InstructionAbortSame,
            0x22 => ExceptionClass::PcAlignment,
            0x24 => ExceptionClass::DataAbortLower,
            0x25 => ExceptionClass::DataAbortSame,
            0x26 => ExceptionClass::SpAlignment,
            0x28 => ExceptionClass::FpException32,
            0x2C => ExceptionClass::FpException64,
            0x2F => ExceptionClass::SError,
            0x30 => ExceptionClass::BreakpointLower,
            0x31 => ExceptionClass::BreakpointSame,
            0x32 => ExceptionClass::SoftwareStepLower,
            0x33 => ExceptionClass::SoftwareStepSame,
            0x34 => ExceptionClass::WatchpointLower,
            0x35 => ExceptionClass::WatchpointSame,
            0x38 => ExceptionClass::Bkpt32,
            0x3A => ExceptionClass::VectorCatch32,
            0x3C => ExceptionClass::Brk64,
            _ => ExceptionClass::Unknown,
        }
    }
}

impl vstd::std_specs::convert::FromSpecImpl<u32> for ExceptionClass {
    open spec fn obeys_from_spec() -> bool {
        true
    }

    open spec fn from_spec(v: u32) -> ExceptionClass {
        exception_class_of(v)
    }
}

/// The class code of every class decodes back to that class.
pub proof fn lemma_exception_class_code_roundtrip(c: ExceptionClass)
    ensures
        exception_class_of(exception_class_code(c)) == c,
{
}

/// Registers x0 to x30 saved on exception entry.
#[derive(Debug)]
pub struct ExceptionContext {
    pub x0: u64,
    pub x1: u64,
    pub x2: u64,
    pub x3: u64,
    pub x4: u64,
    pub x5: u64,
    pub x6: u64,
    pub x7: u64,
    pub x8: u64,
    pub x9: u64,
    pub x10: u64,
    pub x11: u64,
    pub x12: u64,
    pub x13: u64,
    pub x14: u64,
    pub x15: u64,
    pub x16: u64,
    pub x17: u64,
    pub x18: u64,
    pub x19: u64,
    pub x20: u64,
    pub x21: u64,
    pub x22: u64,
    pub x23: u64,
    pub x24: u64,
    pub x25: u64,
    pub x26: u64,
    pub x27: u64,
    pub x28: u64,
    pub x29: u64,
    pub x30: u64,
    pub _padding: u64,
}

/// What ESR_EL1 and the fault registers say about an exception.
#[derive(Debug)]
pub struct ExceptionInfo {
    pub class: ExceptionClass,
    pub iss: u32,
    pub il: bool,
    pub elr: u64,
    pub far: u64,
    pub spsr: u64,
}

impl ExceptionInfo {
    /// Decodes the exception from the values of ESR_EL1, ELR_EL1, FAR_EL1
    /// and SPSR_EL1.
    pub fn from_registers(esr: u64, elr: u64, far: u64, spsr: u64) -> (ret: Self)
        ensures
            ret.class == exception_class_of(((esr >> 26u64) & 0x3F) as u32),
            ret.il == (esr & 0x200_0000 != 0),
            ret.iss == (esr & 0x1FF_FFFF) as u32,
            ret.elr == elr,
            ret.far == far,
            ret.spsr == spsr,
    {
        proof {
            lemma_u64_and_le(esr >> 26u64, 0x3F);
            lemma_u64_and_le(esr, 0x1FF_FFFF);
        }
        let ec = ((esr >> 26) & 0x3F) as u32;
        let il = (esr & 0x200_0000) != 0;
        let iss = (esr & 0x1FFFFFF) as u32;
        ExceptionInfo { class: ExceptionClass::from(ec), iss, il, elr, far, spsr }
    }
}

/// The data fault status code's meaning.
pub open spec fn fault_type_text(dfsc: u8) -> Seq<char> {
    match dfsc & 0x3F {
        0x00 => "Address size fault, level 0"@,
        0x01 => "Address size fault, level 1"@,
        0x02 => "Address size fault, level 2"@,
        0x03 => "Address size fault, level 3"@,
        0x04 => "Translation fault, level 0"@,
        0x05 => "Translation fault, level 1"@,
        0x06 => "Translation fault, level 2"@,
        0x07 => "Translation fault, level 3"@,
        0x09 => "Access flag fault, level 1"@,
        0x0A => "Access flag fault, level 2"@,
        0x0B => "Access flag fault, level 3"@,
        0x0D => "Permission fault, level 1"@,
        0x0E => "Permission fault, level 2"@,
        0x0F => "Permission fault, level 3"@,
        0x10 => "Synchronous External abort"@,
        0x11 => "Synchronous Tag Check Fault"@,
        0x14 => "Synchronous External abort, level 0"@,
        0x15 => "Synchronous External abort, level 1"@,
        0x16 => "Synchronous External abort, level 2"@,
        0x17 => "Synchronous External abort, level 3"@,
        0x18 => "Synchronous parity or ECC error"@,
        0x19 => "Synchronous parity or ECC error, level 1"@,
        0x1A => "Synchronous parity or ECC error, level 2"@,
        0x1B => "Synchronous parity or ECC error, level 3"@,
        0x21 => "Alignment fault"@,
        0x30 => "TLB conflict abort"@,
        0x31 => "Unsupported atomic hardware update fault"@,
        _ => "Unknown fault"@,
    }
}

/// The fields of the syndrome of a data abort.
#[derive(Debug)]
pub struct DataAbortInfo {
    pub dfsc: u8,
    pub wnr: bool,
    pub s1ptw: bool,
    pub cm: bool,
    pub ea: bool,
    pub fnv: bool,
    pub set: u8,
    pub vncr: bool,
    pub ar: bool,
    pub sf: bool,
    pub srt: u8,
    pub sse: bool,
    pub sas: u8,
}

impl DataAbortInfo {
    pub fn from_iss(iss: u32) -> (ret: Self)
        ensures
            ret.dfsc == iss & 0x3F,
            ret.wnr == (iss & 0x40 != 0),
            ret.s1ptw == (iss & 0x80 != 0),
            ret.cm == (iss & 0x100 != 0),
            ret.ea == (iss & 0x200 != 0),
            ret.fnv == (iss & 0x400 != 0),
            ret.set == (iss >> 11u32) & 0x3,
            ret.vncr == (iss & 0x2000 != 0),
            ret.ar == (iss & 0x4000 != 0),
            ret.sf == (iss & 0x8000 != 0),
            ret.srt == (iss >> 16u32) & 0x1F,
            ret.sse == (iss & 0x20_0000 != 0),
            ret.sas == (iss >> 22u32) & 0x3,
    {
        proof {
            lemma_u32_and_le(iss, 0x3F);
            lemma_u32_and_le(iss >> 11u32, 0x3);
            lemma_u32_and_le(iss >> 16u32, 0x1F);
            lemma_u32_and_le(iss >> 22u32, 0x3);
        }
        DataAbortInfo {
            dfsc: (iss & 0x3F) as u8,
            wnr: (iss & 0x40) != 0,
            s1ptw: (iss & 0x80) != 0,
            cm: (iss & 0x100) != 0,
            ea: (iss & 0x200) != 0,
            fnv: (iss & 0x400) != 0,
            set: ((iss >> 11) & 0x3) as u8,
            vncr: (iss & 0x2000) != 0,
            ar: (iss & 0x4000) != 0,
            sf: (iss & 0x8000) != 0,
            srt: ((iss >> 16) & 0x1F) as u8,
            sse: (iss & 0x20_0000) != 0,
            sas: ((iss >> 22) & 0x3) as u8,
        }
    }

    /// The kind of fault the status code names.
    pub fn fault_type(&self) -> (ret: &'static str)
        ensures
            ret@ == fault_type_text(self.dfsc),
    {
        match self.dfsc & 0x3F {
            0x00 => "Address size fault, level 0",
            0x01 => "Address size fault, level 1",
            0x02 => "Address size fault, level 2",
            0x03 => "Address size fault, level 3",
            0x04 => "Translation fault, level 0",
            0x05 => "Translation fault, level 1",
            0x06 => "Translation fault, level 2",
            0x07 => "Translation fault, level 3",
            0x09 => "Access flag fault, level 1",
            0x0A => "Access flag fault, level 2",
            0x0B => "Access flag fault, level 3",
            0x0D => "Permission fault, level 1",
            0x0E => "Permission fault, level 2",
            0x0F => "Permission fault, level 3",
            0x10 => "Synchronous External abort",
            0x11 => "Synchronous Tag Check Fault",
            0x14 => "Synchronous External abort, level 0",
            0x15 => "Synchronous External abort, level 1",
            0x16 => "Synchronous External abort, level 2",
            0x17 => "Synchronous External abort, level 3",
            0x18 => "Synchronous parity or ECC error",
            0x19 => "Synchronous parity or ECC error, level 1",
            0x1A => "Synchronous parity or ECC error, level 2",
            0x1B => "Synchronous parity or ECC error, level 3",
            0x21 => "Alignment fault",
            0x30 => "TLB conflict abort",
            0x31 => "Unsupported atomic hardware update fault",
            _ => "Unknown fault",
        }
    }
}

/// The fields of the syndrome of an instruction abort.
#[derive(Debug)]
pub struct InstructionAbortInfo {
    pub ifsc: u8,
    pub s1ptw: bool,
    pub ea: bool,
    pub fnv: bool,
    pub set: u8,
}

impl InstructionAbortInfo {
    pub fn from_iss(iss: u32) -> (ret: Self)
        ensures
            ret.ifsc == iss & 0x3F,
            ret.s1ptw == (iss & 0x80 != 0),
            ret.ea == (iss & 0x200 != 0),
            ret.fnv == (iss & 0x400 != 0),
            ret.set == (iss >> 11u32) & 0x3,
    {
        proof {
            lemma_u32_and_le(iss, 0x3F);
            lemma_u32_and_le(iss >> 11u32, 0x3);
        }
        InstructionAbortInfo {
            ifsc: (iss & 0x3F) as u8,
            s1ptw: (iss & 0x80) != 0,
            ea: (iss & 0x200) != 0,
            fnv: (iss & 0x400) != 0,
            set: ((iss >> 11) & 0x3) as u8,
        }
    }
}

/// The immediate of an SVC instruction.
#[derive(Debug)]
pub struct SyscallInfo {
    pub imm16: u16,
}

impl SyscallInfo {
    pub fn from_iss(iss: u32) -> (ret: Self)
        ensures
            ret.imm16 == iss & 0xFFFF,
    {
        proof {
            lemma_u32_and_le(iss, 0xFFFF);
        }
        SyscallInfo { imm16: (iss & 0xFFFF) as u16 }
    }
}

/// The handler a synchronous exception goes to, with the syndrome it
/// decodes.
#[derive(Debug)]
pub enum SyncExceptionKind {
    Syscall(SyscallInfo),
    DataAbort(DataAbortInfo),
    InstructionAbort(InstructionAbortInfo),
    PcAlignment,
    SpAlignment,
    Breakpoint,
    BrkInstruction,
    FpException,
    Unknown,
}

/// Routes a synchronous exception by its class.
pub fn classify_sync_exception(info: &ExceptionInfo) -> (ret: SyncExceptionKind)
    ensures
        match info.class {
            ExceptionClass::Svc64 => ret matches SyncExceptionKind::Syscall(s) && s.imm16 == info.iss & 0xFFFF,
            ExceptionClass::DataAbortSame | ExceptionClass::DataAbortLower => ret matches SyncExceptionKind::DataAbort(d)
                && d.dfsc == info.iss & 0x3F && d.wnr == (info.iss & 0x40 != 0),
            ExceptionClass::InstructionAbortSame | ExceptionClass::InstructionAbortLower => ret matches SyncExceptionKind::InstructionAbort(a)
                && a.ifsc == info.iss & 0x3F,
            ExceptionClass::PcAlignment => ret is PcAlignment,
            ExceptionClass::SpAlignment => ret is SpAlignment,
            ExceptionClass::BreakpointSame | ExceptionClass::BreakpointLower => ret is Breakpoint,
            ExceptionClass::Brk64 => ret is BrkInstruction,
            ExceptionClass::FpException64 => ret is FpException,
            _ => ret is Unknown,
        },
{
    match info.class {
        ExceptionClass::Svc64 => SyncExceptionKind::Syscall(SyscallInfo::from_iss(info.iss)),
        ExceptionClass::DataAbortSame | ExceptionClass::DataAbortLower => SyncExceptionKind::DataAbort(
            DataAbortInfo::from_iss(info.iss),
        ),
        ExceptionClass::InstructionAbortSame
        | ExceptionClass::InstructionAbortLower => SyncExceptionKind::InstructionAbort(
            InstructionAbortInfo::from_iss(info.iss),
        ),
        ExceptionClass::PcAlignment => SyncExceptionKind::PcAlignment,
        ExceptionClass::SpAlignment => SyncExceptionKind::SpAlignment,
        ExceptionClass::BreakpointSame | ExceptionClass::BreakpointLower => SyncExceptionKind::Breakpoint,
        ExceptionClass::Brk64 => SyncExceptionKind::BrkInstruction,
        ExceptionClass::FpException64 => SyncExceptionKind::FpException,
        _ => SyncExceptionKind::Unknown,
    }
}

/// The kind of an interrupt identifier read from the GIC.
#[derive(Debug, Clone, Copy, PartialEq, Eq, Structural)]
pub enum InterruptKind {
    /// Software generated, 0 to 15.
    Sgi,
    /// Private peripheral, 16 to 31.
    Ppi,
    /// Shared peripheral, 32 to 1019.
    Spi,
    /// Special identifiers, 1020 to 1023.
    Special,
    /// Anything above.
    Invalid,
}

pub open spec fn interrupt_kind_of(id: u32) -> InterruptKind {
    if id <= 15 {
        InterruptKind::Sgi
    } else if id <= 31 {
        InterruptKind::Ppi
    } else if id <= 1019 {
        InterruptKind::Spi
    } else if id <= 1023 {
        InterruptKind::Special
    } else {
        InterruptKind::Invalid
    }
}

/// Routes an interrupt identifier by its range.
pub fn classify_interrupt(interrupt_id: u32) -> (ret: InterruptKind)
    ensures
        ret == interrupt_kind_of(interrupt_id),
{
    if interrupt_id <= 15 {
        InterruptKind::Sgi
    } else if interrupt_id <= 31 {
        InterruptKind::Ppi
    } else if interrupt_id <= 1019 {
        InterruptKind::Spi
    } else if interrupt_id <= 1023 {
        InterruptKind::Special
    } else {
        InterruptKind::Invalid
    }
}

/// A private peripheral interrupt from the virtual (27) or physical (30)
/// generic timer goes to the timer handler.
pub fn is_timer_ppi(interrupt_id: u32) -> (ret: bool)
    ensures
        ret == (interrupt_id == 27 || interrupt_id == 30),
{
    interrupt_id == 27 || interrupt_id == 30
}

/// What the handler of a special interrupt identifier reports.
pub fn special_interrupt_message(interrupt_id: u32) -> (ret: &'static str)
    ensures
        interrupt_id == 1020 || interrupt_id == 1021 || interrupt_id == 1022 ==> ret@
            == "Reserved interrupt"@,
        interrupt_id == 1023 ==> ret@ == "Spurious interrupt"@,
        !(1020 <= interrupt_id <= 1023) ==> ret@ == "Unknown special interrupt"@,
{
    match interrupt_id {
        1020 => "Reserved interrupt",
        1021 => "Reserved interrupt",
        1022 => "Reserved interrupt",
        1023 => "Spurious interrupt",
        _ => "Unknown special interrupt",
    }
}

/// Whether the IRQ mask bit (I, bit 7) of a DAIF value leaves interrupts
/// enabled.
pub fn interrupts_enabled_from_daif(daif: u64) -> (ret: bool)
    ensures
        ret == (daif & 0x80 == 0),
{
    (daif & 0x80) == 0
}

} // verus!
