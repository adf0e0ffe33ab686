use rustixos::filesystem::{File, FileSystem, VfsNode};

#[test]
fn new_filesystem_has_initial_entries() {
    let fs = FileSystem::new();
    assert_eq!(fs.get_current_directory(), "/");
    assert!(fs.is_directory("/"));
    assert!(fs.is_directory("/bin"));
    assert!(fs.is_directory("/etc"));
    assert!(fs.is_directory("/home"));
    assert!(fs.is_directory("/tmp"));
    assert!(fs.file_exists("/hello.txt"));
    assert!(!fs.is_directory("/hello.txt"));
    assert_eq!(fs.read_file("/hello.txt").unwrap(), &b"Hello, RustixOS!".to_vec());
    assert_eq!(
        fs.read_file("/readme.md").unwrap(),
        &b"# RustixOS\n\nA Rust-based operating system kernel.".to_vec()
    );
}

#[test]
fn list_root_in_path_order() {
    let fs = FileSystem::new();
    let names = fs.list_directory("/").unwrap();
    assert_eq!(names, vec!["bin", "etc", "hello.txt", "home", "readme.md", "tmp"]);
}

#[test]
fn list_nested_directory_only_direct_children() {
    let mut fs = FileSystem::new();
    fs.create_file("/home/a.txt", b"a".to_vec()).unwrap();
    fs.create_directory("/home/user").unwrap();
    fs.create_file("/home/user/b.txt", b"b".to_vec()).unwrap();
    assert_eq!(fs.list_directory("/home").unwrap(), vec!["a.txt", "user"]);
    assert_eq!(fs.list_directory("/home/user").unwrap(), vec!["b.txt"]);
}

#[test]
fn list_errors() {
    let fs = FileSystem::new();
    assert_eq!(fs.list_directory("/nope"), Err("Directory not found"));
    assert_eq!(fs.list_directory("/hello.txt"), Err("Path is not a directory"));
}

#[test]
fn create_twice_is_refused() {
    let mut fs = FileSystem::new();
    assert_eq!(fs.create_file("/x", b"1".to_vec()), Ok(()));
    assert_eq!(fs.create_file("/x", b"2".to_vec()), Err("File already exists"));
    assert_eq!(fs.read_file("/x").unwrap(), &b"1".to_vec());
    assert_eq!(fs.create_directory("/bin"), Err("Directory already exists"));
}

#[test]
fn read_after_write() {
    let mut fs = FileSystem::new();
    assert_eq!(fs.write_file("/hello.txt", b"new".to_vec()), Ok(()));
    assert_eq!(fs.read_file("/hello.txt").unwrap(), &b"new".to_vec());
    // writing a missing file creates it
    assert_eq!(fs.write_file("/fresh", b"abc".to_vec()), Ok(()));
    assert_eq!(fs.read_file("/fresh").unwrap(), &b"abc".to_vec());
    // other files are untouched
    assert_eq!(
        fs.read_file("/readme.md").unwrap(),
        &b"# RustixOS\n\nA Rust-based operating system kernel.".to_vec()
    );
}

#[test]
fn write_and_read_errors_on_directories() {
    let mut fs = FileSystem::new();
    assert_eq!(fs.write_file("/bin", b"x".to_vec()), Err("Path is a directory"));
    assert_eq!(fs.read_file("/bin"), Err("Path is a directory"));
    assert_eq!(fs.read_file("/missing"), Err("File not found"));
}

#[test]
fn delete_undoes_create() {
    let mut fs = FileSystem::new();
    let before = fs.list_directory("/").unwrap();
    fs.create_file("/temp.txt", b"t".to_vec()).unwrap();
    assert!(fs.file_exists("/temp.txt"));
    assert_eq!(fs.delete_file("/temp.txt"), Ok(()));
    assert!(!fs.file_exists("/temp.txt"));
    assert_eq!(fs.read_file("/temp.txt"), Err("File not found"));
    assert_eq!(fs.list_directory("/").unwrap(), before);
    assert_eq!(fs.delete_file("/temp.txt"), Err("File not found"));
}

#[test]
fn change_directory_and_relative_paths() {
    let mut fs = FileSystem::new();
    assert_eq!(fs.change_directory("home"), Ok(()));
    assert_eq!(fs.get_current_directory(), "/home");
    fs.create_file("notes.txt", b"n".to_vec()).unwrap();
    assert!(fs.file_exists("/home/notes.txt"));
    assert!(fs.file_exists("notes.txt"));
    assert_eq!(fs.change_directory("/hello.txt"), Err("Path is not a directory"));
    assert_eq!(fs.change_directory("/nowhere"), Err("Directory not found"));
    assert_eq!(fs.get_current_directory(), "/home");
}

#[test]
fn change_into_created_directory() {
    let mut fs = FileSystem::new();
    fs.create_directory("/projects").unwrap();
    assert_eq!(fs.change_directory("/projects"), Ok(()));
    assert_eq!(fs.get_current_directory(), "/projects");
}

#[test]
fn file_new_file_and_directory() {
    let f = File::new_file("/a".to_string(), vec![1, 2, 3]);
    assert_eq!(f.size, 3);
    assert!(!f.is_directory);
    let d = File::new_directory("/d".to_string());
    assert_eq!(d.size, 0);
    assert!(d.is_directory);
    assert!(d.content.is_empty());
}

#[test]
fn vfs_read_copies_from_offset() {
    let f = File::new_file("/a".to_string(), b"hello world".to_vec());
    let mut buf = [0u8; 5];
    assert_eq!(f.read(6, &mut buf), Ok(5));
    assert_eq!(&buf, b"world");
    let mut big = [9u8; 8];
    assert_eq!(f.read(8, &mut big), Ok(3));
    assert_eq!(&big, &[b'r', b'l', b'd', 9, 9, 9, 9, 9]);
    assert_eq!(f.read(11, &mut big), Ok(0));
    assert_eq!(f.read(100, &mut big), Ok(0));
}

#[test]
fn vfs_write_then_read_back() {
    let mut f = File::new_file("/a".to_string(), b"abc".to_vec());
    assert_eq!(f.write(5, b"xy"), Ok(2));
    assert_eq!(f.content, vec![b'a', b'b', b'c', 0, 0, b'x', b'y']);
    assert_eq!(f.get_size(), 7);
    let mut buf = [0u8; 2];
    assert_eq!(f.read(5, &mut buf), Ok(2));
    assert_eq!(&buf, b"xy");
    assert_eq!(f.write(0, b"Z"), Ok(1));
    assert_eq!(f.content[0], b'Z');
    assert_eq!(f.get_size(), 7);
}

#[test]
fn vfs_directory_refuses_io() {
    let mut d = File::new_directory("/d".to_string());
    let mut buf = [7u8; 3];
    assert_eq!(d.read(0, &mut buf), Err("Cannot read from directory"));
    assert_eq!(buf, [7u8; 3]);
    assert_eq!(d.write(0, b"x"), Err("Cannot write to directory"));
    assert!(VfsNode::is_directory(&d));
    assert_eq!(d.get_size(), 0);
}
