//! The system-call interface: decoding the call number, what each call
//! does to the filesystem and the process table, and the table of open
//! file descriptors.
//!
//! The caller's memory is not read here: `syscall_reads` says which bytes a
//! call needs, the caller copies them in, and the outcome says what to print
//! and what to copy back out.

use vstd::prelude::*;
use vstd::utf8::{decode_utf8, encode_utf8, valid_utf8};
use crate::filesystem::{
    FileSystem, FsEntry, normalize, create_spec, delete_spec, change_dir_spec,
};
use crate::process::{ProcessId, ProcessManager, ProcessState, SchedState, stop_spec};
use std::collections::BTreeMap;

verus! {

broadcast use vstd::std_specs::btree::group_btree_axioms;

/// The system calls, by the numbers of the x86-64 Linux ABI.
#[derive(Debug, Clone, Copy, PartialEq, Eq, Structural)]
pub enum SyscallNumber {
    Read,
    Write,
    Open,
    Close,
    Exit,
    Fork,
    Execve,
    Getpid,
    Kill,
    Mkdir,
    Rmdir,
    Chdir,
    Getcwd,
}

/// The number of each call.
pub open spec fn syscall_code(s: SyscallNumber) -> u64 {
    match s {
        SyscallNumber::Read => 0,
        SyscallNumber::Write => 1,
        SyscallNumber::Open => 2,
        SyscallNumber::Close => 3,
        SyscallNumber::Exit => 60,
        SyscallNumber::Fork => 57,
        SyscallNumber::Execve => 59,
        SyscallNumber::Getpid => 39,
        SyscallNumber::Kill => 62,
        SyscallNumber::Mkdir => 83,
        SyscallNumber::Rmdir => 84,
        SyscallNumber::Chdir => 80,
        SyscallNumber::Getcwd => 79,
    }
}

/// The call with number `n`, if any.
pub open spec fn syscall_of(n: u64) -> Option<SyscallNumber> {
    if n == 0 {
        Some(SyscallNumber::Read)
    } else if n == 1 {
        Some(SyscallNumber::Write)
    } else if n == 2 {
        Some(SyscallNumber::Open)
    } else if n == 3 {
        Some(SyscallNumber::Close)
    } else if n == 60 {
        Some(SyscallNumber::Exit)
    } else if n == 57 {
        Some(SyscallNumber::Fork)
    } else if n == 59 {
        Some(SyscallNumber::Execve)
    } else if n == 39 {
        Some(SyscallNumber::Getpid)
    } else if n == 62 {
        Some(SyscallNumber::Kill)
    } else if n == 83 {
        Some(SyscallNumber::Mkdir)
    } else if n == 84 {
        Some(SyscallNumber::Rmdir)
    } else if n == 80 {
        Some(SyscallNumber::Chdir)
    } else if n == 79 {
        Some(SyscallNumber::Getcwd)
    } else {
        None
    }
}

impl SyscallNumber {
    /// The call with number `n`.
    pub fn from_u64(n: u64) -> (ret: Option<Self>)
        ensures
            ret == syscall_of(n),
    {
        match n {
            0 => Some(Self::Read),
            1 => Some(Self::Write),
            2 => Some(Self::Open),
            3 => Some(Self::Close),
            60 => Some(Self::Exit),
            57 => Some(Self::Fork),
            59 => Some(Self::Execve),
            39 => Some(Self::Getpid),
            62 => Some(Self::Kill),
            83 => Some(Self::Mkdir),
            84 => Some(Self::Rmdir),
            80 => Some(Self::Chdir),
            79 => Some(Self::Getcwd),
            _ => None,
        }
    }

    /// The number of this call.
    pub fn code(self) -> (ret: u64)
        ensures
            ret == syscall_code(self),
    {
        match self {
            SyscallNumber::Read => 0,
            SyscallNumber::Write => 1,
            SyscallNumber::Open => 2,
            SyscallNumber::Close => 3,
            SyscallNumber::Exit => 60,
            SyscallNumber::Fork => 57,
            SyscallNumber::Execve => 59,
            SyscallNumber::Getpid => 39,
            SyscallNumber::Kill => 62,
            SyscallNumber::Mkdir => 83,
            SyscallNumber::Rmdir => 84,
            SyscallNumber::Chdir => 80,
            SyscallNumber::Getcwd => 79,
        }
    }
}

/// Decoding the number of a call gives the call back, and only the
/// numbers of calls decode.
pub proof fn lemma_syscall_code_roundtrip(s: SyscallNumber, n: u64)
    ensures
        syscall_of(syscall_code(s)) == Some(s),
        syscall_of(n) matches Some(t) ==> syscall_code(t) == n,
{
}

/// What a call returns: a value, and on failure -1 with a message.
#[derive(Debug)]
pub struct SyscallResult {
    pub value: i64,
    pub error: Option<&'static str>,
}

/// `r` is the value `v` with no error.
pub open spec fn is_ok(r: SyscallResult, v: i64) -> bool {
    r.value == v && r.error is None
}

/// `r` is the failure with message `msg`.
pub open spec fn is_err(r: SyscallResult, msg: Seq<char>) -> bool {
    r.value == -1 && (r.error matches Some(e) && e@ == msg)
}

impl SyscallResult {
    /// Success with `value`.
    pub fn ok(value: i64) -> (ret: Self)
        ensures
            is_ok(ret, value),
    {
        SyscallResult { value, error: None }
    }

    /// Failure with the message `error`.
    pub fn err(error: &'static str) -> (ret: Self)
        ensures
            is_err(ret, error@),
    {
        SyscallResult { value: -1, error: Some(error) }
    }
}

/// The characters `String::from_utf8_lossy` reads from the bytes.
pub uninterp spec fn utf8_lossy(bytes: Seq<u8>) -> Seq<char>;

/// Every byte is ASCII.
pub open spec fn all_ascii(bytes: Seq<u8>) -> bool {
    forall|i: int| 0 <= i < bytes.len() ==> bytes[i] < 128
}

/// Calls `core::str::from_utf8`: whether the bytes are valid UTF-8, which
/// ASCII bytes always are.
#[verifier::external_body]
fn is_utf8(bytes: &[u8]) -> (ret: bool)
    ensures
        ret == valid_utf8(bytes@),
        all_ascii(bytes@) ==> ret,
{
    core::str::from_utf8(bytes).is_ok()
}

/// Calls `String::from_utf8_lossy`: the string the bytes spell, with the
/// replacement character for what is not UTF-8. Valid UTF-8 is decoded as
/// it stands, and ASCII bytes spell their own characters.
#[verifier::external_body]
fn lossy_string(bytes: &[u8]) -> (ret: String)
    ensures
        ret@ == utf8_lossy(bytes@),
        valid_utf8(bytes@) ==> ret@ == decode_utf8(bytes@),
        all_ascii(bytes@) ==> ret@ == bytes@.map_values(|b: u8| b as char),
{
    String::from_utf8_lossy(bytes).into_owned()
}

/// What a call needs from the caller's memory.
#[derive(Debug, Clone, Copy, PartialEq, Eq, Structural)]
pub enum UserRead {
    Nothing,
    Bytes { addr: u64, len: usize },
    CString { addr: u64 },
}

/// The bytes a call reads: `write` its buffer once the descriptor is
/// accepted, and the path calls their path.
pub open spec fn reads_spec(n: u64, arg1: u64, arg2: u64, arg3: u64) -> UserRead {
    match syscall_of(n) {
        Some(SyscallNumber::Write) => if (arg1 as i32) == 1 || (arg1 as i32) == 2 {
            UserRead::Bytes { addr: arg2, len: arg3 as usize }
        } else {
            UserRead::Nothing
        },
        Some(SyscallNumber::Open) => UserRead::CString { addr: arg1 },
        Some(SyscallNumber::Mkdir) => UserRead::CString { addr: arg1 },
        Some(SyscallNumber::Rmdir) => UserRead::CString { addr: arg1 },
        Some(SyscallNumber::Chdir) => UserRead::CString { addr: arg1 },
        _ => UserRead::Nothing,
    }
}

/// Which bytes of the caller's memory the call `syscall_number` needs.
pub fn syscall_reads(syscall_number: u64, arg1: u64, arg2: u64, arg3: u64) -> (ret: UserRead)
    ensures
        ret == reads_spec(syscall_number, arg1, arg2, arg3),
{
    match SyscallNumber::from_u64(syscall_number) {
        Some(SyscallNumber::Write) => {
            let fd = arg1 as i32;
            if fd == 1 || fd == 2 {
                UserRead::Bytes { addr: arg2, len: arg3 as usize }
            } else {
                UserRead::Nothing
            }
        },
        Some(SyscallNumber::Open) => UserRead::CString { addr: arg1 },
        Some(SyscallNumber::Mkdir) => UserRead::CString { addr: arg1 },
        Some(SyscallNumber::Rmdir) => UserRead::CString { addr: arg1 },
        Some(SyscallNumber::Chdir) => UserRead::CString { addr: arg1 },
        _ => UserRead::Nothing,
    }
}

/// What each call asks of the caller's memory, by call number: `open` (2),
/// `mkdir` (83), `rmdir` (84) and `chdir` (80) the zero-terminated path at
/// their first argument; `write` (1) to standard output or error the
/// `arg3` bytes at `arg2`; every other call nothing.
pub proof fn lemma_calls_read_their_arguments(n: u64, arg1: u64, arg2: u64, arg3: u64)
    ensures
        n == 2 || n == 80 || n == 83 || n == 84 ==> reads_spec(n, arg1, arg2, arg3)
            == (UserRead::CString { addr: arg1 }),
        n == 1 && ((arg1 as i32) == 1 || (arg1 as i32) == 2) ==> reads_spec(n, arg1, arg2, arg3)
            == (UserRead::Bytes { addr: arg2, len: arg3 as usize }),
        n == 1 && (arg1 as i32) != 1 && (arg1 as i32) != 2 ==> reads_spec(n, arg1, arg2, arg3)
            == UserRead::Nothing,
        !(n == 1 || n == 2 || n == 80 || n == 83 || n == 84) ==> reads_spec(n, arg1, arg2, arg3)
            == UserRead::Nothing,
{
}

/// What a call did: its result, the bytes to print, the process that
/// exits with its status, and the bytes to copy to an address of the
/// caller.
pub struct SyscallOutcome {
    pub result: SyscallResult,
    pub print: Option<Vec<u8>>,
    pub exiting: Option<(ProcessId, i32)>,
    pub copy_out: Option<(u64, Vec<u8>)>,
}

impl SyscallOutcome {
    /// Only a result.
    pub open spec fn plain(self) -> bool {
        self.print is None && self.exiting is None && self.copy_out is None
    }
}

/// A result with nothing else.
fn outcome(result: SyscallResult) -> (ret: SyscallOutcome)
    ensures
        ret.result == result,
        ret.plain(),
{
    SyscallOutcome { result, print: None, exiting: None, copy_out: None }
}

/// `read`: only standard input is accepted, and it has nothing to give.
fn sys_read(fd: i32) -> (ret: SyscallResult)
    ensures
        fd != 0 ==> is_err(ret, "Invalid file descriptor"@),
        fd == 0 ==> is_ok(ret, 0),
{
    if fd != 0 {
        return SyscallResult::err("Invalid file descriptor");
    }
    SyscallResult::ok(0)
}

/// `write`: to standard output or error, the bytes are printed when they
/// are UTF-8.
fn sys_write(fd: i32, data: &[u8]) -> (ret: SyscallOutcome)
    ensures
        fd != 1 && fd != 2 ==> is_err(ret.result, "Invalid file descriptor"@) && ret.plain(),
        (fd == 1 || fd == 2) && valid_utf8(data@) ==> is_ok(ret.result, data@.len() as i64) && (
        ret.print matches Some(p) && p@ == data@) && ret.exiting is None && ret.copy_out is None,
        (fd == 1 || fd == 2) && !valid_utf8(data@) ==> is_err(ret.result, "Invalid UTF-8"@)
            && ret.plain(),
{
    if fd != 1 && fd != 2 {
        return outcome(SyscallResult::err("Invalid file descriptor"));
    }
    if is_utf8(data) {
        let count = data.len();
        SyscallOutcome {
            result: SyscallResult::ok(count as i64),
            print: Some(vstd::slice::slice_to_vec(data)),
            exiting: None,
            copy_out: None,
        }
    } else {
        outcome(SyscallResult::err("Invalid UTF-8"))
    }
}

/// `open`: a descriptor for a path that exists.
fn sys_open(fs: &FileSystem, path_bytes: &[u8]) -> (ret: SyscallResult)
    requires
        fs.wf(),
    ensures
        fs.entries().contains_key(normalize(fs.cwd(), utf8_lossy(path_bytes@))) ==> is_ok(ret, 3),
        !fs.entries().contains_key(normalize(fs.cwd(), utf8_lossy(path_bytes@))) ==> is_err(
            ret,
            "File not found"@,
        ),
{
    let path = lossy_string(path_bytes);
    if fs.file_exists(path.as_str()) {
        SyscallResult::ok(3)
    } else {
        SyscallResult::err("File not found")
    }
}

/// `exit`: the current process, if any, is terminated.
fn sys_exit(pm: &mut ProcessManager, status: i32) -> (ret: SyscallOutcome)
    requires
        old(pm).wf(),
        old(pm)@.ticks < u64::MAX,
    ensures
        final(pm).wf(),
        is_ok(ret.result, 0),
        ret.print is None && ret.copy_out is None,
        match old(pm)@.current {
            Some(c) => final(pm)@ == stop_spec(old(pm)@, c, ProcessState::Terminated).0
                && ret.exiting == Some((c, status)),
            None => final(pm)@ == old(pm)@ && ret.exiting is None,
        },
{
    match pm.get_current_process() {
        Some(current_pid) => {
            let _ = pm.terminate_process(current_pid);
            SyscallOutcome {
                result: SyscallResult::ok(0),
                print: None,
                exiting: Some((current_pid, status)),
                copy_out: None,
            }
        },
        None => outcome(SyscallResult::ok(0)),
    }
}

/// `getpid`: the id of the current process, or 0.
fn sys_getpid(pm: &ProcessManager) -> (ret: SyscallResult)
    ensures
        match pm@.current {
            Some(c) => is_ok(ret, c.0 as i64),
            None => is_ok(ret, 0),
        },
{
    match pm.get_current_process() {
        Some(current_pid) => SyscallResult::ok(current_pid.0 as i64),
        None => SyscallResult::ok(0),
    }
}

/// The result of a call that reports a library result.
pub open spec fn reports(ret: SyscallResult, r: Result<(), Seq<char>>) -> bool {
    match r {
        Ok(_) => is_ok(ret, 0),
        Err(msg) => is_err(ret, msg),
    }
}

/// `kill`: the process `pid` is terminated.
fn sys_kill(pm: &mut ProcessManager, pid: i32) -> (ret: SyscallResult)
    requires
        old(pm).wf(),
        old(pm)@.ticks < u64::MAX,
    ensures
        final(pm).wf(),
        final(pm)@ == stop_spec(old(pm)@, ProcessId(pid as u64), ProcessState::Terminated).0,
        reports(ret, stop_spec(old(pm)@, ProcessId(pid as u64), ProcessState::Terminated).1),
{
    let target_pid = ProcessId(pid as u64);
    match pm.terminate_process(target_pid) {
        Ok(()) => SyscallResult::ok(0),
        Err(e) => SyscallResult::err(e),
    }
}

/// `mkdir`: creates the directory at the path.
fn sys_mkdir(fs: &mut FileSystem, path_bytes: &[u8]) -> (ret: SyscallResult)
    requires
        old(fs).wf(),
    ensures
        final(fs).wf(),
        final(fs).cwd() == old(fs).cwd(),
        match create_spec(
            old(fs).entries(),
            normalize(old(fs).cwd(), utf8_lossy(path_bytes@)),
            (Seq::<u8>::empty(), true),
            "Directory already exists"@,
        ) {
            Ok(m) => is_ok(ret, 0) && final(fs).entries() == m,
            Err(msg) => is_err(ret, msg) && final(fs).entries() == old(fs).entries(),
        },
{
    let path = lossy_string(path_bytes);
    match fs.create_directory(path.as_str()) {
        Ok(()) => SyscallResult::ok(0),
        Err(e) => SyscallResult::err(e),
    }
}

/// `rmdir`: removes what is at the path.
fn sys_rmdir(fs: &mut FileSystem, path_bytes: &[u8]) -> (ret: SyscallResult)
    requires
        old(fs).wf(),
    ensures
        final(fs).wf(),
        final(fs).cwd() == old(fs).cwd(),
        match delete_spec(old(fs).entries(), normalize(old(fs).cwd(), utf8_lossy(path_bytes@))) {
            Ok(m) => is_ok(ret, 0) && final(fs).entries() == m,
            Err(msg) => is_err(ret, msg) && final(fs).entries() == old(fs).entries(),
        },
{
    let path = lossy_string(path_bytes);
    match fs.delete_file(path.as_str()) {
        Ok(()) => SyscallResult::ok(0),
        Err(e) => SyscallResult::err(e),
    }
}

/// `chdir`: makes the directory at the path current.
fn sys_chdir(fs: &mut FileSystem, path_bytes: &[u8]) -> (ret: SyscallResult)
    requires
        old(fs).wf(),
    ensures
        final(fs).wf(),
        final(fs).entries() == old(fs).entries(),
        match change_dir_spec(old(fs).entries(), normalize(old(fs).cwd(), utf8_lossy(path_bytes@))) {
            Ok(d) => is_ok(ret, 0) && final(fs).cwd() == d,
            Err(msg) => is_err(ret, msg) && final(fs).cwd() == old(fs).cwd(),
        },
{
    let path = lossy_string(path_bytes);
    match fs.change_directory(path.as_str()) {
        Ok(()) => SyscallResult::ok(0),
        Err(e) => SyscallResult::err(e),
    }
}

/// `getcwd`: the current directory, with a terminating zero, goes to the
/// caller's buffer of `size` bytes, which must be large enough.
fn sys_getcwd(fs: &FileSystem, buf: u64, size: usize) -> (ret: SyscallOutcome)
    ensures
        encode_utf8(fs.cwd()).len() >= size ==> is_err(ret.result, "Buffer too small"@) && ret.plain(),
        encode_utf8(fs.cwd()).len() < size ==> is_ok(ret.result, encode_utf8(fs.cwd()).len() as i64)
            && (ret.copy_out matches Some(c) && c.0 == buf && c.1@ == encode_utf8(fs.cwd()).push(0u8))
            && ret.print is None && ret.exiting is None,
{
    let cwd = fs.get_current_directory();
    let mut bytes = cwd.as_bytes_vec();
    let len = bytes.len();
    if len >= size {
        return outcome(SyscallResult::err("Buffer too small"));
    }
    bytes.push(0u8);
    SyscallOutcome {
        result: SyscallResult::ok(len as i64),
        print: None,
        exiting: None,
        copy_out: Some((buf, bytes)),
    }
}

/// `close`: always succeeds.
fn sys_close(_fd: i32) -> (ret: SyscallResult)
    ensures
        is_ok(ret, 0),
{
    SyscallResult::ok(0)
}

/// `fork`: not supported.
fn sys_fork() -> (ret: SyscallResult)
    ensures
        is_err(ret, "Fork not implemented"@),
{
    SyscallResult::err("Fork not implemented")
}

/// `execve`: not supported.
fn sys_execve(_filename: u64, _argv: u64) -> (ret: SyscallResult)
    ensures
        is_err(ret, "Execve not implemented"@),
{
    SyscallResult::err("Execve not implemented")
}

/// The filesystem is as it was.
pub open spec fn fs_kept(before: &FileSystem, after: &FileSystem) -> bool {
    after.entries() == before.entries() && after.cwd() == before.cwd()
}

/// Carries out the call `syscall_number` with its arguments. `data` holds
/// the bytes that `syscall_reads` asked for: the buffer of a `write`, or the
/// path of a path call without its terminating zero.
pub fn handle_syscall(
    syscall_number: u64,
    arg1: u64,
    arg2: u64,
    arg3: u64,
    _arg4: u64,
    _arg5: u64,
    _arg6: u64,
    data: &[u8],
    fs: &mut FileSystem,
    pm: &mut ProcessManager,
) -> (ret: SyscallOutcome)
    requires
        old(fs).wf(),
        old(pm).wf(),
        old(pm)@.ticks < u64::MAX,
        reads_spec(syscall_number, arg1, arg2, arg3) is Bytes ==> data@.len() == reads_spec(
            syscall_number,
            arg1,
            arg2,
            arg3,
        )->len,
    ensures
        final(fs).wf(),
        final(pm).wf(),
        match syscall_of(syscall_number) {
            Some(SyscallNumber::Read) => {
                &&& (arg1 as i32) != 0 ==> is_err(ret.result, "Invalid file descriptor"@)
                &&& (arg1 as i32) == 0 ==> is_ok(ret.result, 0)
                &&& ret.plain() && fs_kept(old(fs), final(fs)) && final(pm)@ == old(pm)@
            },
            Some(SyscallNumber::Write) => {
                &&& (arg1 as i32) != 1 && (arg1 as i32) != 2 ==> is_err(
                    ret.result,
                    "Invalid file descriptor"@,
                ) && ret.plain()
                &&& ((arg1 as i32) == 1 || (arg1 as i32) == 2) && valid_utf8(data@) ==> is_ok(
                    ret.result,
                    (arg3 as usize) as i64,
                ) && (ret.print matches Some(p) && p@ == data@) && ret.exiting is None
                    && ret.copy_out is None
                &&& ((arg1 as i32) == 1 || (arg1 as i32) == 2) && !valid_utf8(data@) ==> is_err(
                    ret.result,
                    "Invalid UTF-8"@,
                ) && ret.plain()
                &&& fs_kept(old(fs), final(fs)) && final(pm)@ == old(pm)@
            },
            Some(SyscallNumber::Open) => {
                &&& old(fs).entries().contains_key(normalize(old(fs).cwd(), utf8_lossy(data@)))
                    ==> is_ok(ret.result, 3)
                &&& !old(fs).entries().contains_key(normalize(old(fs).cwd(), utf8_lossy(data@)))
                    ==> is_err(ret.result, "File not found"@)
                &&& ret.plain() && fs_kept(old(fs), final(fs)) && final(pm)@ == old(pm)@
            },
            Some(SyscallNumber::Close) => is_ok(ret.result, 0) && ret.plain() && fs_kept(
                old(fs),
                final(fs),
            ) && final(pm)@ == old(pm)@,
            Some(SyscallNumber::Exit) => {
                &&& is_ok(ret.result, 0)
                &&& ret.print is None && ret.copy_out is None
                &&& fs_kept(old(fs), final(fs))
                &&& match old(pm)@.current {
                    Some(c) => final(pm)@ == stop_spec(old(pm)@, c, ProcessState::Terminated).0
                        && ret.exiting == Some((c, arg1 as i32)),
                    None => final(pm)@ == old(pm)@ && ret.exiting is None,
                }
            },
            Some(SyscallNumber::Fork) => is_err(ret.result, "Fork not implemented"@) && ret.plain()
                && fs_kept(old(fs), final(fs)) && final(pm)@ == old(pm)@,
            Some(SyscallNumber::Execve) => is_err(ret.result, "Execve not implemented"@)
                && ret.plain() && fs_kept(old(fs), final(fs)) && final(pm)@ == old(pm)@,
            Some(SyscallNumber::Getpid) => {
                &&& match old(pm)@.current {
                    Some(c) => is_ok(ret.result, c.0 as i64),
                    None => is_ok(ret.result, 0),
                }
                &&& ret.plain() && fs_kept(old(fs), final(fs)) && final(pm)@ == old(pm)@
            },
            Some(SyscallNumber::Kill) => {
                &&& final(pm)@ == stop_spec(
                    old(pm)@,
                    ProcessId((arg1 as i32) as u64),
                    ProcessState::Terminated,
                ).0
                &&& reports(
                    ret.result,
                    stop_spec(old(pm)@, ProcessId((arg1 as i32) as u64), ProcessState::Terminated).1,
                )
                &&& ret.plain() && fs_kept(old(fs), final(fs))
            },
            Some(SyscallNumber::Mkdir) => {
                &&& final(fs).cwd() == old(fs).cwd()
                &&& match create_spec(
                    old(fs).entries(),
                    normalize(old(fs).cwd(), utf8_lossy(data@)),
                    (Seq::<u8>::empty(), true),
                    "Directory already exists"@,
                ) {
                    Ok(m) => is_ok(ret.result, 0) && final(fs).entries() == m,
                    Err(msg) => is_err(ret.result, msg) && final(fs).entries() == old(fs).entries(),
                }
                &&& ret.plain() && final(pm)@ == old(pm)@
            },
            Some(SyscallNumber::Rmdir) => {
                &&& final(fs).cwd() == old(fs).cwd()
                &&& match delete_spec(old(fs).entries(), normalize(old(fs).cwd(), utf8_lossy(data@))) {
                    Ok(m) => is_ok(ret.result, 0) && final(fs).entries() == m,
                    Err(msg) => is_err(ret.result, msg) && final(fs).entries() == old(fs).entries(),
                }
                &&& ret.plain() && final(pm)@ == old(pm)@
            },
            Some(SyscallNumber::Chdir) => {
                &&& final(fs).entries() == old(fs).entries()
                &&& match change_dir_spec(
                    old(fs).entries(),
                    normalize(old(fs).cwd(), utf8_lossy(data@)),
                ) {
                    Ok(d) => is_ok(ret.result, 0) && final(fs).cwd() == d,
                    Err(msg) => is_err(ret.result, msg) && final(fs).cwd() == old(fs).cwd(),
                }
                &&& ret.plain() && final(pm)@ == old(pm)@
            },
            Some(SyscallNumber::Getcwd) => {
                &&& encode_utf8(old(fs).cwd()).len() >= (arg2 as usize) ==> is_err(
                    ret.result,
                    "Buffer too small"@,
                ) && ret.plain()
                &&& encode_utf8(old(fs).cwd()).len() < (arg2 as usize) ==> is_ok(
                    ret.result,
                    encode_utf8(old(fs).cwd()).len() as i64,
                ) && (ret.copy_out matches Some(c) && c.0 == arg1 && c.1@ == encode_utf8(
                    old(fs).cwd(),
                ).push(0u8)) && ret.print is None && ret.exiting is None
                &&& fs_kept(old(fs), final(fs)) && final(pm)@ == old(pm)@
            },
            None => is_err(ret.result, "Invalid syscall number"@) && ret.plain() && fs_kept(
                old(fs),
                final(fs),
            ) && final(pm)@ == old(pm)@,
        },
{
    match SyscallNumber::from_u64(syscall_number) {
        Some(SyscallNumber::Read) => outcome(sys_read(arg1 as i32)),
        Some(SyscallNumber::Write) => sys_write(arg1 as i32, data),
        Some(SyscallNumber::Open) => outcome(sys_open(fs, data)),
        Some(SyscallNumber::Close) => outcome(sys_close(arg1 as i32)),
        Some(SyscallNumber::Exit) => sys_exit(pm, arg1 as i32),
        Some(SyscallNumber::Fork) => outcome(sys_fork()),
        Some(SyscallNumber::Execve) => outcome(sys_execve(arg1, arg2)),
        Some(SyscallNumber::Getpid) => outcome(sys_getpid(pm)),
        Some(SyscallNumber::Kill) => outcome(sys_kill(pm, arg1 as i32)),
        Some(SyscallNumber::Mkdir) => outcome(sys_mkdir(fs, data)),
        Some(SyscallNumber::Rmdir) => outcome(sys_rmdir(fs, data)),
        Some(SyscallNumber::Chdir) => outcome(sys_chdir(fs, data)),
        Some(SyscallNumber::Getcwd) => sys_getcwd(fs, arg1, arg2 as usize),
        None => outcome(SyscallResult::err("Invalid syscall number")),
    }
}

/// An open file: its path, the position in it, and the flags it was
/// opened with.
#[derive(Debug, Clone)]
pub struct FileDescriptor {
    pub path: String,
    pub offset: usize,
    pub flags: i32,
}

/// The counter after handing out `n`: one more, wrapping at the top.
pub open spec fn next_fd_after(n: i32) -> i32 {
    if n == i32::MAX {
        i32::MIN
    } else {
        (n + 1) as i32
    }
}

/// The open file descriptors, and the number the next one gets.
pub struct FdTable {
    table: BTreeMap<i32, FileDescriptor>,
    next_fd: i32,
}

impl FdTable {
    /// The descriptors by number.
    pub closed spec fn entries(&self) -> Map<i32, FileDescriptor> {
        self.table@
    }

    /// The number the next descriptor gets.
    pub closed spec fn next_fd(&self) -> i32 {
        self.next_fd
    }

    /// The standard descriptors: 0 is /dev/stdin with flags 0, 1 is
    /// /dev/stdout and 2 is /dev/stderr with flags 1; the next is 3.
    pub fn new() -> (ret: Self)
        ensures
            ret.entries().dom() == set![0i32, 1i32, 2i32],
            ret.entries()[0].path@ == "/dev/stdin"@ && ret.entries()[0].offset == 0
                && ret.entries()[0].flags == 0,
            ret.entries()[1].path@ == "/dev/stdout"@ && ret.entries()[1].offset == 0
                && ret.entries()[1].flags == 1,
            ret.entries()[2].path@ == "/dev/stderr"@ && ret.entries()[2].offset == 0
                && ret.entries()[2].flags == 1,
            ret.next_fd() == 3,
            fds_below(ret.entries(), ret.next_fd()),
    {
        let mut table: BTreeMap<i32, FileDescriptor> = BTreeMap::new();
        table.insert(
            0,
            FileDescriptor { path: String::from_str("/dev/stdin"), offset: 0, flags: 0 },
        );
        table.insert(
            1,
            FileDescriptor { path: String::from_str("/dev/stdout"), offset: 0, flags: 1 },
        );
        table.insert(
            2,
            FileDescriptor { path: String::from_str("/dev/stderr"), offset: 0, flags: 1 },
        );
        let ret = FdTable { table, next_fd: 3 };
        assert(ret.entries().dom() =~= set![0i32, 1i32, 2i32]);
        ret
    }
}

/// Opens a descriptor for `path` at offset 0 under the next number, which
/// is returned; a descriptor already under that number is replaced.
pub fn allocate_fd(fds: &mut FdTable, path: String, flags: i32) -> (ret: i32)
    ensures
        ret == old(fds).next_fd(),
        final(fds).next_fd() == next_fd_after(old(fds).next_fd()),
        final(fds).entries() == old(fds).entries().insert(
            ret,
            (FileDescriptor { path, offset: 0, flags }),
        ),
{
    let fd = fds.next_fd;
    fds.next_fd = if fd == i32::MAX {
        i32::MIN
    } else {
        fd + 1
    };
    let descriptor = FileDescriptor { path, offset: 0, flags };
    fds.table.insert(fd, descriptor);
    fd
}

/// Closes the descriptor `fd`; refused when it is not open.
pub fn deallocate_fd(fds: &mut FdTable, fd: i32) -> (ret: Result<(), &'static str>)
    ensures
        final(fds).next_fd() == old(fds).next_fd(),
        final(fds).entries() == old(fds).entries().remove(fd),
        old(fds).entries().contains_key(fd) ==> ret is Ok,
        !old(fds).entries().contains_key(fd) ==> (ret matches Err(e) && e@
            == "Invalid file descriptor"@),
{
    match fds.table.remove(&fd) {
        Some(_) => Ok(()),
        None => Err("Invalid file descriptor"),
    }
}

/// Closing a descriptor just opened, under a number that was free, gives
/// back the table from before; closing it again is refused.
pub proof fn lemma_deallocate_undoes_allocate(
    entries: Map<i32, FileDescriptor>,
    fd: i32,
    d: FileDescriptor,
)
    requires
        !entries.contains_key(fd),
    ensures
        entries.insert(fd, d).remove(fd) == entries,
        !entries.insert(fd, d).remove(fd).contains_key(fd),
{
    assert(entries.insert(fd, d).remove(fd) =~= entries);
}

/// Every open descriptor has a number below `next`.
pub open spec fn fds_below(entries: Map<i32, FileDescriptor>, next: i32) -> bool {
    forall|k: i32| #[trigger] entries.contains_key(k) ==> k < next
}

/// Descriptor numbers stay fresh. While every open descriptor is below the
/// next number, which is at least 3 and not yet the largest `i32`, an
/// allocation hands out that next number, which no open descriptor has
/// and which is larger than every number handed out before; afterwards all
/// descriptors are still below the next number, and closing one keeps
/// them so.
pub proof fn lemma_fds_fresh(entries: Map<i32, FileDescriptor>, next: i32, d: FileDescriptor, fd: i32)
    requires
        fds_below(entries, next),
        3 <= next < i32::MAX,
    ensures
        !entries.contains_key(next),
        next >= 3,
        next_fd_after(next) == next + 1,
        fds_below(entries.insert(next, d), next_fd_after(next)),
        fds_below(entries.remove(fd), next),
{
}

} // verus!
