use rustixos::filesystem::FileSystem;
use rustixos::process::{ProcessId, ProcessManager, ProcessState};
use rustixos::syscalls::{
    allocate_fd, deallocate_fd, handle_syscall, syscall_reads, FdTable, SyscallNumber, SyscallResult,
    UserRead,
};

fn setup() -> (FileSystem, ProcessManager) {
    (FileSystem::new(), ProcessManager::new())
}

#[test]
fn syscall_numbers_round_trip() {
    let all = [
        SyscallNumber::Read,
        SyscallNumber::Write,
        SyscallNumber::Open,
        SyscallNumber::Close,
        SyscallNumber::Exit,
        SyscallNumber::Fork,
        SyscallNumber::Execve,
        SyscallNumber::Getpid,
        SyscallNumber::Kill,
        SyscallNumber::Mkdir,
        SyscallNumber::Rmdir,
        SyscallNumber::Chdir,
        SyscallNumber::Getcwd,
    ];
    for s in all {
        assert_eq!(SyscallNumber::from_u64(s.code()), Some(s));
    }
    assert_eq!(SyscallNumber::from_u64(60), Some(SyscallNumber::Exit));
    assert_eq!(SyscallNumber::from_u64(79), Some(SyscallNumber::Getcwd));
    assert_eq!(SyscallNumber::from_u64(4), None);
    assert_eq!(SyscallNumber::Kill.code(), 62);
}

#[test]
fn results() {
    let ok = SyscallResult::ok(5);
    assert_eq!(ok.value, 5);
    assert!(ok.error.is_none());
    let err = SyscallResult::err("bad");
    assert_eq!(err.value, -1);
    assert_eq!(err.error, Some("bad"));
}

#[test]
fn reads_requested() {
    assert_eq!(syscall_reads(1, 1, 0x1000, 12), UserRead::Bytes { addr: 0x1000, len: 12 });
    assert_eq!(syscall_reads(1, 7, 0x1000, 12), UserRead::Nothing);
    assert_eq!(syscall_reads(2, 0x2000, 0, 0), UserRead::CString { addr: 0x2000 });
    assert_eq!(syscall_reads(83, 0x3000, 0, 0), UserRead::CString { addr: 0x3000 });
    assert_eq!(syscall_reads(0, 0, 0, 0), UserRead::Nothing);
    assert_eq!(syscall_reads(999, 0, 0, 0), UserRead::Nothing);
}

#[test]
fn invalid_number() {
    let (mut fs, mut pm) = setup();
    let out = handle_syscall(1234, 0, 0, 0, 0, 0, 0, &[], &mut fs, &mut pm);
    assert_eq!(out.result.value, -1);
    assert_eq!(out.result.error, Some("Invalid syscall number"));
}

#[test]
fn read_only_from_stdin() {
    let (mut fs, mut pm) = setup();
    let out = handle_syscall(0, 0, 0, 10, 0, 0, 0, &[], &mut fs, &mut pm);
    assert_eq!((out.result.value, out.result.error), (0, None));
    let out = handle_syscall(0, 3, 0, 10, 0, 0, 0, &[], &mut fs, &mut pm);
    assert_eq!(out.result.error, Some("Invalid file descriptor"));
}

#[test]
fn write_prints_utf8() {
    let (mut fs, mut pm) = setup();
    let out = handle_syscall(1, 1, 0x1000, 5, 0, 0, 0, b"hello", &mut fs, &mut pm);
    assert_eq!((out.result.value, out.result.error), (5, None));
    assert_eq!(out.print, Some(b"hello".to_vec()));
    let out = handle_syscall(1, 2, 0x1000, 2, 0, 0, 0, &[0xff, 0xfe], &mut fs, &mut pm);
    assert_eq!(out.result.error, Some("Invalid UTF-8"));
    assert!(out.print.is_none());
    let out = handle_syscall(1, 5, 0x1000, 2, 0, 0, 0, b"hi", &mut fs, &mut pm);
    assert_eq!(out.result.error, Some("Invalid file descriptor"));
}

#[test]
fn open_existing_file() {
    let (mut fs, mut pm) = setup();
    let out = handle_syscall(2, 0x10, 0, 0, 0, 0, 0, b"/hello.txt", &mut fs, &mut pm);
    assert_eq!((out.result.value, out.result.error), (3, None));
    let out = handle_syscall(2, 0x10, 0, 0, 0, 0, 0, b"/none", &mut fs, &mut pm);
    assert_eq!(out.result.error, Some("File not found"));
}

#[test]
fn close_fork_execve() {
    let (mut fs, mut pm) = setup();
    assert_eq!(handle_syscall(3, 9, 0, 0, 0, 0, 0, &[], &mut fs, &mut pm).result.value, 0);
    assert_eq!(
        handle_syscall(57, 0, 0, 0, 0, 0, 0, &[], &mut fs, &mut pm).result.error,
        Some("Fork not implemented")
    );
    assert_eq!(
        handle_syscall(59, 0, 0, 0, 0, 0, 0, &[], &mut fs, &mut pm).result.error,
        Some("Execve not implemented")
    );
}

#[test]
fn getpid_and_exit() {
    let (mut fs, mut pm) = setup();
    let a = pm.create_process("a".to_string(), 0);
    pm.schedule();
    let out = handle_syscall(39, 0, 0, 0, 0, 0, 0, &[], &mut fs, &mut pm);
    assert_eq!(out.result.value, a.0 as i64);
    let out = handle_syscall(60, 3, 0, 0, 0, 0, 0, &[], &mut fs, &mut pm);
    assert_eq!(out.result.value, 0);
    assert_eq!(out.exiting, Some((a, 3)));
    assert_eq!(pm.get_process(a).unwrap().state, ProcessState::Terminated);
    assert_eq!(pm.get_current_process(), Some(ProcessId(1)));
}

#[test]
fn kill_terminates() {
    let (mut fs, mut pm) = setup();
    let a = pm.create_process("a".to_string(), 0);
    let out = handle_syscall(62, a.0, 9, 0, 0, 0, 0, &[], &mut fs, &mut pm);
    assert_eq!((out.result.value, out.result.error), (0, None));
    assert_eq!(pm.get_process(a).unwrap().state, ProcessState::Terminated);
    let out = handle_syscall(62, 77, 9, 0, 0, 0, 0, &[], &mut fs, &mut pm);
    assert_eq!(out.result.error, Some("Process not found"));
}

#[test]
fn mkdir_chdir_getcwd_rmdir() {
    let (mut fs, mut pm) = setup();
    let out = handle_syscall(83, 0x10, 0, 0, 0, 0, 0, b"/work", &mut fs, &mut pm);
    assert_eq!(out.result.value, 0);
    assert!(fs.is_directory("/work"));
    let out = handle_syscall(83, 0x10, 0, 0, 0, 0, 0, b"/work", &mut fs, &mut pm);
    assert_eq!(out.result.error, Some("Directory already exists"));
    let out = handle_syscall(80, 0x10, 0, 0, 0, 0, 0, b"/work", &mut fs, &mut pm);
    assert_eq!(out.result.value, 0);
    assert_eq!(fs.get_current_directory(), "/work");
    let out = handle_syscall(79, 0x5000, 64, 0, 0, 0, 0, &[], &mut fs, &mut pm);
    assert_eq!(out.result.value, 5);
    assert_eq!(out.copy_out, Some((0x5000, b"/work\0".to_vec())));
    let out = handle_syscall(79, 0x5000, 5, 0, 0, 0, 0, &[], &mut fs, &mut pm);
    assert_eq!(out.result.error, Some("Buffer too small"));
    let out = handle_syscall(84, 0x10, 0, 0, 0, 0, 0, b"/work", &mut fs, &mut pm);
    assert_eq!(out.result.value, 0);
    assert!(!fs.file_exists("/work"));
    let out = handle_syscall(84, 0x10, 0, 0, 0, 0, 0, b"/work", &mut fs, &mut pm);
    assert_eq!(out.result.error, Some("File not found"));
    let out = handle_syscall(80, 0x10, 0, 0, 0, 0, 0, b"/hello.txt", &mut fs, &mut pm);
    assert_eq!(out.result.error, Some("Path is not a directory"));
}

#[test]
fn lossy_paths_replace_bad_bytes() {
    let (mut fs, mut pm) = setup();
    let out = handle_syscall(83, 0x10, 0, 0, 0, 0, 0, &[b'/', 0xff], &mut fs, &mut pm);
    assert_eq!(out.result.value, 0);
    assert!(fs.is_directory("/\u{FFFD}"));
}

#[test]
fn fd_table_allocate_and_deallocate() {
    let mut fds = FdTable::new();
    let fd = allocate_fd(&mut fds, "/hello.txt".to_string(), 0);
    assert_eq!(fd, 3);
    let fd2 = allocate_fd(&mut fds, "/readme.md".to_string(), 1);
    assert_eq!(fd2, 4);
    assert_eq!(deallocate_fd(&mut fds, fd), Ok(()));
    assert_eq!(deallocate_fd(&mut fds, fd), Err("Invalid file descriptor"));
    assert_eq!(deallocate_fd(&mut fds, 0), Ok(()));
    assert_eq!(deallocate_fd(&mut fds, 99), Err("Invalid file descriptor"));
}

#[test]
fn descriptor_numbers_stay_fresh() {
    let mut fds = FdTable::new();
    let mut seen = vec![0, 1, 2];
    for i in 0..5 {
        let fd = allocate_fd(&mut fds, format!("/f{}", i), 0);
        assert!(fd >= 3);
        assert!(seen.iter().all(|&s| s < fd));
        seen.push(fd);
        if i % 2 == 0 {
            assert_eq!(deallocate_fd(&mut fds, fd), Ok(()));
        }
    }
    assert_eq!(deallocate_fd(&mut fds, -1), Err("Invalid file descriptor"));
}
