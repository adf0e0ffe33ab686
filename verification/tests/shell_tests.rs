use rustixos::filesystem::FileSystem;
use rustixos::shell::commands::filesystem::{
    arrange_entries, parse_ls_options, CatCommand, DirEntry, LsCommand, MkdirCommand,
};
use rustixos::shell::commands::wifi::{
    audit_notes, audit_summary, needs_password_prompt, parse_connect_args, parse_hotspot_args, AuditNote,
    WifiCommand, WifiNetwork, WifiSecurity,
};
use rustixos::shell::commands::{get_command_help, ExternalCommand};
use rustixos::shell::variables::Variables;
use rustixos::shell::{Shell, ShellConfig, ShellError};

#[test]
fn default_config() {
    let c = ShellConfig::default();
    assert_eq!(c.prompt, "rustix$ ");
    assert_eq!(c.history_size, 1000);
    assert!(c.completion_enabled && c.color_enabled && c.auto_cd && c.glob_enabled);
    assert!(!c.vi_mode);
}

#[test]
fn new_shell_state() {
    let sh = Shell::new();
    assert!(sh.is_running());
    assert_eq!(sh.get_exit_code(), 0);
    assert_eq!(sh.get_current_directory(), "/");
    assert_eq!(sh.get_variable("HOME"), None);
}

#[test]
fn with_config_keeps_config() {
    let mut c = ShellConfig::default();
    c.color_enabled = false;
    let sh = Shell::with_config(c);
    assert_eq!(sh.generate_prompt(), "user@rustix:/$ ");
}

#[test]
fn variables_get_after_set() {
    let mut sh = Shell::new();
    sh.set_variable("A".to_string(), "1".to_string());
    sh.set_variable("B".to_string(), "2".to_string());
    sh.set_variable("A".to_string(), "3".to_string());
    assert_eq!(sh.get_variable("A"), Some("3".to_string()));
    assert_eq!(sh.get_variable("B"), Some("2".to_string()));
    assert_eq!(sh.get_variable("C"), None);
}

#[test]
fn variables_map() {
    let mut v = Variables::new();
    assert_eq!(v.get("x"), None);
    v.set("x".to_string(), "y".to_string());
    assert_eq!(v.get("x"), Some("y".to_string()));
}

#[test]
fn exit_stops_the_shell() {
    let mut sh = Shell::new();
    sh.exit(7);
    assert!(!sh.is_running());
    assert_eq!(sh.get_exit_code(), 7);
}

#[test]
fn environment_and_prompt() {
    let mut sh = Shell::new();
    sh.setup_environment();
    assert_eq!(sh.get_variable("USER"), Some("user".to_string()));
    assert_eq!(sh.get_variable("PWD"), Some("/".to_string()));
    assert_eq!(sh.get_variable("TERM"), Some("xterm-256color".to_string()));
    assert_eq!(sh.generate_prompt(), "\x1b[32muser@rustix\x1b[0m:\x1b[34m/\x1b[0m$ ");
    sh.set_variable("USER".to_string(), "ada".to_string());
    assert_eq!(sh.generate_prompt(), "\x1b[32mada@rustix\x1b[0m:\x1b[34m/\x1b[0m$ ");
}

#[test]
fn change_directory_forms() {
    let mut fs = FileSystem::new();
    fs.create_directory("/home/user").unwrap();
    let mut sh = Shell::new();
    assert_eq!(sh.change_directory("home", &fs).ok(), Some(0));
    assert_eq!(sh.get_current_directory(), "/home");
    assert_eq!(sh.change_directory("user", &fs).ok(), Some(0));
    assert_eq!(sh.get_current_directory(), "/home/user");
    assert_eq!(sh.get_variable("PWD"), Some("/home/user".to_string()));
    assert_eq!(sh.get_variable("OLDPWD"), Some("/home".to_string()));
    assert_eq!(sh.change_directory("..", &fs).ok(), Some(0));
    assert_eq!(sh.get_current_directory(), "/home");
    // the parent of a top-level directory is the root
    assert_eq!(sh.change_directory("..", &fs).ok(), Some(0));
    assert_eq!(sh.get_current_directory(), "/");
    assert_eq!(sh.get_variable("PWD"), Some("/".to_string()));
    assert_eq!(sh.get_variable("OLDPWD"), Some("/home".to_string()));
    assert_eq!(sh.change_directory("/home", &fs).ok(), Some(0));
    assert_eq!(sh.change_directory(".", &fs).ok(), Some(0));
    assert_eq!(sh.get_current_directory(), "/home");
    assert_eq!(sh.change_directory("/tmp", &fs).ok(), Some(0));
    assert_eq!(sh.get_current_directory(), "/tmp");
    // HOME unset: "~" is the root
    assert_eq!(sh.change_directory("~", &fs).ok(), Some(0));
    assert_eq!(sh.get_current_directory(), "/");
    sh.set_variable("HOME".to_string(), "/home/user".to_string());
    assert_eq!(sh.change_directory("~", &fs).ok(), Some(0));
    assert_eq!(sh.get_current_directory(), "/home/user");
}

#[test]
fn change_directory_missing() {
    let fs = FileSystem::new();
    let mut sh = Shell::new();
    match sh.change_directory("/nowhere", &fs) {
        Err(ShellError::DirectoryNotFound(d)) => assert_eq!(d, "/nowhere"),
        _ => panic!("expected DirectoryNotFound"),
    }
    assert_eq!(sh.get_current_directory(), "/");
    match sh.change_directory("hello.txt", &fs) {
        Err(ShellError::DirectoryNotFound(d)) => assert_eq!(d, "/hello.txt"),
        _ => panic!("expected DirectoryNotFound"),
    }
}

#[test]
fn error_messages() {
    assert_eq!(ShellError::CommandNotFound("foo".to_string()).message(), "command not found: foo");
    assert_eq!(ShellError::InvalidSyntax("x".to_string()).message(), "syntax error: x");
    assert_eq!(ShellError::PermissionDenied("x".to_string()).message(), "permission denied: x");
    assert_eq!(ShellError::FileNotFound("x".to_string()).message(), "file not found: x");
    assert_eq!(ShellError::DirectoryNotFound("x".to_string()).message(), "directory not found: x");
    assert_eq!(ShellError::InvalidArgument("x".to_string()).message(), "invalid argument: x");
    assert_eq!(ShellError::IoError("x".to_string()).message(), "I/O error: x");
    assert_eq!(ShellError::NetworkError("x".to_string()).message(), "network error: x");
    assert_eq!(ShellError::BluetoothError("x".to_string()).message(), "bluetooth error: x");
    assert_eq!(ShellError::WifiError("x".to_string()).message(), "wifi error: x");
    assert_eq!(ShellError::SystemError("x".to_string()).message(), "system error: x");
}

#[test]
fn command_metadata() {
    assert_eq!(LsCommand.name(), "ls");
    assert_eq!(CatCommand.description(), "Display file contents");
    assert_eq!(MkdirCommand.usage(), "mkdir [OPTION]... DIRECTORY...");
    assert_eq!(WifiCommand.name(), "wifi");
    assert_eq!(get_command_help("ls"), Some(("List directory contents", "ls [OPTION]... [FILE]...")));
    assert_eq!(
        get_command_help("airodump-ng"),
        Some(("802.11 packet capture program", "airodump-ng [options] <interface>"))
    );
    assert_eq!(get_command_help("no-such-command"), None);
    assert_eq!(get_command_help("fdisk"), Some(("Manipulate disk partition table", "fdisk [OPTION]... DEVICE")));
    assert_eq!(
        get_command_help("aireplay-ng"),
        Some(("802.11 packet injection program", "aireplay-ng [options] <interface>"))
    );
}

#[test]
fn permissions_string() {
    let ls = LsCommand;
    assert_eq!(ls.format_permissions(0o040755), "drwxr-xr-x");
    assert_eq!(ls.format_permissions(0o644), "-rw-r--r--");
    assert_eq!(ls.format_permissions(0), "----------");
    assert_eq!(ls.format_permissions(0o777), "-rwxrwxrwx");
}

#[test]
fn colorized_names() {
    let ls = LsCommand;
    assert_eq!(ls.colorize_name("bin", true, false), "\x1b[34mbin\x1b[0m");
    assert_eq!(ls.colorize_name("run", false, true), "\x1b[32mrun\x1b[0m");
    assert_eq!(ls.colorize_name("a.txt", false, false), "a.txt");
}

fn strings(args: &[&str]) -> Vec<String> {
    args.iter().map(|a| a.to_string()).collect()
}

fn error_of<T>(r: Result<T, ShellError>) -> String {
    match r {
        Ok(_) => panic!("expected an error"),
        Err(e) => e.message(),
    }
}

#[test]
fn connect_arguments() {
    let c = parse_connect_args(&strings(&["home", "-p", "secret", "--interface", "wlan1", "--no-save"])).unwrap();
    assert_eq!(c.ssid, "home");
    assert_eq!(c.password.as_deref(), Some("secret"));
    assert_eq!(c.interface, "wlan1");
    assert_eq!(c.security_type, None);
    assert!(!c.save_profile);
    let d = parse_connect_args(&strings(&["cafe"])).unwrap();
    assert_eq!(d.interface, "wlan0");
    assert!(d.save_profile);
    assert_eq!(error_of(parse_connect_args(&strings(&[]))), "invalid argument: missing SSID");
    assert_eq!(error_of(parse_connect_args(&strings(&["x", "-p"]))), "invalid argument: missing password");
    assert_eq!(error_of(parse_connect_args(&strings(&["x", "-s"]))), "invalid argument: missing security type");
    assert_eq!(error_of(parse_connect_args(&strings(&["x", "-q"]))), "invalid argument: unknown option: -q");
}

#[test]
fn hotspot_arguments() {
    let h = parse_hotspot_args(&strings(&[])).unwrap();
    assert_eq!(h.ssid, "RustixOS-Hotspot");
    assert_eq!(h.password, None);
    assert_eq!(h.interface, "wlan0");
    assert_eq!(h.channel, 6);
    assert_eq!(h.security, "WPA2");
    let h = parse_hotspot_args(&strings(&["-s", "lab", "-c", "+11", "--security", "OPEN"])).unwrap();
    assert_eq!(h.ssid, "lab");
    assert_eq!(h.channel, 11);
    assert_eq!(h.security, "OPEN");
    assert_eq!(error_of(parse_hotspot_args(&strings(&["-c", "256"]))), "invalid argument: invalid channel number");
    assert_eq!(error_of(parse_hotspot_args(&strings(&["-c", "x1"]))), "invalid argument: invalid channel number");
    assert_eq!(error_of(parse_hotspot_args(&strings(&["-c"]))), "invalid argument: missing channel number");
    assert_eq!(error_of(parse_hotspot_args(&strings(&["-i"]))), "invalid argument: missing interface name");
    assert_eq!(error_of(parse_hotspot_args(&strings(&["--band"]))), "invalid argument: unknown option: --band");
}

fn network(security: WifiSecurity) -> WifiNetwork {
    WifiNetwork {
        ssid: "n".to_string(),
        bssid: "00:00:00:00:00:00".to_string(),
        frequency: 2437,
        signal_strength: -50,
        security,
        channel: 6,
        encryption: "".to_string(),
    }
}

#[test]
fn audit_counts_and_shares() {
    let nets = vec![
        network(WifiSecurity::Open),
        network(WifiSecurity::WPA2),
        network(WifiSecurity::WPA2),
        network(WifiSecurity::Enterprise),
    ];
    let a = audit_summary(&nets);
    assert_eq!(a.total, 4);
    assert_eq!(a.open, 1);
    assert_eq!(a.wpa2, 2);
    assert_eq!(a.wep, 0);
    assert_eq!(a.open_percent, 25);
    assert_eq!(a.wpa2_percent, 50);
    let empty = audit_summary(&vec![]);
    assert_eq!(empty.total, 0);
    assert_eq!(empty.open_percent, 0);
}

#[test]
fn ls_arguments() {
    let o = parse_ls_options(&strings(&["-la", "/tmp", "-R"]), "/home").unwrap();
    assert!(o.flags.long_format && o.flags.all_files && o.flags.recursive);
    assert!(!o.flags.human_readable);
    assert!(o.flags.color);
    assert_eq!(o.paths, vec!["/tmp".to_string()]);
    let d = parse_ls_options(&strings(&["-"]), "/home").unwrap();
    assert_eq!(d.paths, vec!["-".to_string()]);
    let e = parse_ls_options(&strings(&[]), "/home").unwrap();
    assert_eq!(e.paths, vec!["/home".to_string()]);
    assert_eq!(error_of(parse_ls_options(&strings(&["-lz"]), "/")), "invalid argument: invalid option: -z");
    assert_eq!(error_of(parse_ls_options(&strings(&["--color"]), "/")), "invalid argument: invalid option: --");
}

fn entry(name: &str, time: u64) -> DirEntry {
    DirEntry { name: name.to_string(), is_directory: false, modified_time: time }
}

fn names(es: &[DirEntry]) -> Vec<String> {
    es.iter().map(|e| e.name.clone()).collect()
}

#[test]
fn ls_entry_order() {
    let es = || vec![entry("b", 2), entry(".hidden", 5), entry("a", 1), entry("c", 3)];
    assert_eq!(names(&arrange_entries(es(), false, false, false)), vec!["a", "b", "c"]);
    assert_eq!(names(&arrange_entries(es(), true, false, false)), vec![".hidden", "a", "b", "c"]);
    assert_eq!(names(&arrange_entries(es(), false, false, true)), vec!["c", "b", "a"]);
    assert_eq!(names(&arrange_entries(es(), true, true, false)), vec![".hidden", "c", "b", "a"]);
    assert_eq!(names(&arrange_entries(es(), false, true, true)), vec!["a", "b", "c"]);
    // entries with the same time keep their order
    let same = vec![entry("b", 1), entry("a", 1), entry("c", 2)];
    assert_eq!(names(&arrange_entries(same, false, true, false)), vec!["c", "b", "a"]);
}

#[test]
fn hotspot_password_prompt_and_audit_notes() {
    assert!(needs_password_prompt(&None, "WPA2"));
    assert!(!needs_password_prompt(&None, "OPEN"));
    assert!(!needs_password_prompt(&Some("pw".to_string()), "WPA2"));
    let nets = vec![network(WifiSecurity::Open), network(WifiSecurity::WPA3), network(WifiSecurity::WPS)];
    let a = audit_summary(&nets);
    assert_eq!(
        audit_notes(&a),
        vec![AuditNote::OpenNetworks(1), AuditNote::WpsEnabled(1), AuditNote::Wpa3Available(1)]
    );
}
