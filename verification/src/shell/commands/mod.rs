//! Commands outside the shell: what each is called, what it does, and how
//! it is used.

pub mod filesystem;
pub mod wifi;

use vstd::prelude::*;
use crate::textutil::str_eq;

verus! {

/// A command outside the shell.
pub trait ExternalCommand {
    fn name(&self) -> &'static str;

    fn description(&self) -> &'static str;

    fn usage(&self) -> &'static str;
}


/// The commands defined here: name, description and usage.
pub open spec fn command_table() -> Seq<(Seq<char>, Seq<char>, Seq<char>)> {
    seq![
        ("ls"@, "List directory contents"@, "ls [OPTION]... [FILE]..."@),
        ("cat"@, "Display file contents"@, "cat [OPTION]... [FILE]..."@),
        ("cp"@, "Copy files and directories"@, "cp [OPTION]... SOURCE... DEST"@),
        ("mv"@, "Move/rename files and directories"@, "mv [OPTION]... SOURCE... DEST"@),
        ("rm"@, "Remove files and directories"@, "rm [OPTION]... FILE..."@),
        ("mkdir"@, "Create directories"@, "mkdir [OPTION]... DIRECTORY..."@),
        ("rmdir"@, "Remove empty directories"@, "rmdir [OPTION]... DIRECTORY..."@),
        ("touch"@, "Change file timestamps"@, "touch [OPTION]... FILE..."@),
        ("find"@, "Search for files and directories"@, "find [PATH...] [EXPRESSION]"@),
        ("grep"@, "Search text patterns"@, "grep [OPTION]... PATTERN [FILE]..."@),
        ("head"@, "Display first lines of files"@, "head [OPTION]... [FILE]..."@),
        ("tail"@, "Display last lines of files"@, "tail [OPTION]... [FILE]..."@),
        ("wc"@, "Count lines, words, and characters"@, "wc [OPTION]... [FILE]..."@),
        ("sort"@, "Sort lines of text"@, "sort [OPTION]... [FILE]..."@),
        ("uniq"@, "Report or omit repeated lines"@, "uniq [OPTION]... [INPUT [OUTPUT]]"@),
        ("cut"@, "Extract columns from lines"@, "cut OPTION... [FILE]..."@),
        ("awk"@, "Pattern scanning and processing"@, "awk [OPTION]... PROGRAM [FILE]..."@),
        ("sed"@, "Stream editor"@, "sed [OPTION]... {script-only-if-no-other-script} [input-file]..."@),
        ("tar"@, "Archive files"@, "tar [OPTION...] [FILE]..."@),
        ("gzip"@, "Compress files"@, "gzip [OPTION]... [FILE]..."@),
        ("gunzip"@, "Decompress files"@, "gunzip [OPTION]... [FILE]..."@),
        ("zip"@, "Create ZIP archives"@, "zip [OPTION]... ZIPFILE [FILE]..."@),
        ("unzip"@, "Extract ZIP archives"@, "unzip [OPTION]... ZIPFILE [FILE]..."@),
        ("df"@, "Display filesystem disk space usage"@, "df [OPTION]... [FILE]..."@),
        ("du"@, "Display directory space usage"@, "du [OPTION]... [FILE]..."@),
        ("mount"@, "Mount filesystems"@, "mount [OPTION]... DEVICE|DIR"@),
        ("umount"@, "Unmount filesystems"@, "umount [OPTION]... DIR | DEVICE..."@),
        ("fsck"@, "Check and repair filesystems"@, "fsck [OPTION]... [FILESYSTEM]..."@),
        ("mkfs"@, "Create filesystems"@, "mkfs [OPTION]... DEVICE [SIZE]"@),
        ("lsblk"@, "List block devices"@, "lsblk [OPTION]... [DEVICE]..."@),
        ("fdisk"@, "Manipulate disk partition table"@, "fdisk [OPTION]... DEVICE"@),
        ("wifi"@, "Comprehensive WiFi management tool"@, "wifi [COMMAND] [OPTIONS]"@),
        ("iwconfig"@, "Configure wireless network interface"@, "iwconfig [interface]"@),
        ("iwlist"@, "Get detailed wireless information"@, "iwlist [interface] [scanning]"@),
        ("wpa_cli"@, "WPA supplicant command line client"@, "wpa_cli [command]"@),
        ("wpa_supplicant"@, "WPA supplicant daemon"@, "wpa_supplicant [options]"@),
        ("hostapd"@, "IEEE 802.11 AP daemon"@, "hostapd [config_file]"@),
        ("aircrack-ng"@, "802.11 WEP and WPA-PSK keys cracking program"@, "aircrack-ng [options] <.cap/.ivs file(s)>"@),
        ("airodump-ng"@, "802.11 packet capture program"@, "airodump-ng [options] <interface>"@),
        ("aireplay-ng"@, "802.11 packet injection program"@, "aireplay-ng [options] <interface>"@),
    ]
}

/// The description and usage of the first command of `t` named `name`.
pub open spec fn help_lookup(t: Seq<(Seq<char>, Seq<char>, Seq<char>)>, name: Seq<char>) -> Option<
    (Seq<char>, Seq<char>),
>
    decreases t.len(),
{
    if t.len() == 0 {
        None
    } else if t[0].0 == name {
        Some((t[0].1, t[0].2))
    } else {
        help_lookup(t.drop_first(), name)
    }
}

/// The views of the entries of a table of literals.
pub open spec fn table_view(t: Seq<(&'static str, &'static str, &'static str)>) -> Seq<
    (Seq<char>, Seq<char>, Seq<char>),
> {
    t.map_values(|e: (&'static str, &'static str, &'static str)| (e.0@, e.1@, e.2@))
}

/// The table of commands.
fn commands() -> (ret: Vec<(&'static str, &'static str, &'static str)>)
    ensures
        table_view(ret@) == command_table(),
{
    let mut table: Vec<(&'static str, &'static str, &'static str)> = Vec::new();
    table.push(("ls", "List directory contents", "ls [OPTION]... [FILE]..."));
    table.push(("cat", "Display file contents", "cat [OPTION]... [FILE]..."));
    table.push(("cp", "Copy files and directories", "cp [OPTION]... SOURCE... DEST"));
    table.push(("mv", "Move/rename files and directories", "mv [OPTION]... SOURCE... DEST"));
    table.push(("rm", "Remove files and directories", "rm [OPTION]... FILE..."));
    table.push(("mkdir", "Create directories", "mkdir [OPTION]... DIRECTORY..."));
    table.push(("rmdir", "Remove empty directories", "rmdir [OPTION]... DIRECTORY..."));
    table.push(("touch", "Change file timestamps", "touch [OPTION]... FILE..."));
    table.push(("find", "Search for files and directories", "find [PATH...] [EXPRESSION]"));
    table.push(("grep", "Search text patterns", "grep [OPTION]... PATTERN [FILE]..."));
    table.push(("head", "Display first lines of files", "head [OPTION]... [FILE]..."));
    table.push(("tail", "Display last lines of files", "tail [OPTION]... [FILE]..."));
    table.push(("wc", "Count lines, words, and characters", "wc [OPTION]... [FILE]..."));
    table.push(("sort", "Sort lines of text", "sort [OPTION]... [FILE]..."));
    table.push(("uniq", "Report or omit repeated lines", "uniq [OPTION]... [INPUT [OUTPUT]]"));
    table.push(("cut", "Extract columns from lines", "cut OPTION... [FILE]..."));
    table.push(("awk", "Pattern scanning and processing", "awk [OPTION]... PROGRAM [FILE]..."));
    table.push(("sed", "Stream editor", "sed [OPTION]... {script-only-if-no-other-script} [input-file]..."));
    table.push(("tar", "Archive files", "tar [OPTION...] [FILE]..."));
    table.push(("gzip", "Compress files", "gzip [OPTION]... [FILE]..."));
    table.push(("gunzip", "Decompress files", "gunzip [OPTION]... [FILE]..."));
    table.push(("zip", "Create ZIP archives", "zip [OPTION]... ZIPFILE [FILE]..."));
    table.push(("unzip", "Extract ZIP archives", "unzip [OPTION]... ZIPFILE [FILE]..."));
    table.push(("df", "Display filesystem disk space usage", "df [OPTION]... [FILE]..."));
    table.push(("du", "Display directory space usage", "du [OPTION]... [FILE]..."));
    table.push(("mount", "Mount filesystems", "mount [OPTION]... DEVICE|DIR"));
    table.push(("umount", "Unmount filesystems", "umount [OPTION]... DIR | DEVICE..."));
    table.push(("fsck", "Check and repair filesystems", "fsck [OPTION]... [FILESYSTEM]..."));
    table.push(("mkfs", "Create filesystems", "mkfs [OPTION]... DEVICE [SIZE]"));
    table.push(("lsblk", "List block devices", "lsblk [OPTION]... [DEVICE]..."));
    table.push(("fdisk", "Manipulate disk partition table", "fdisk [OPTION]... DEVICE"));
    table.push(("wifi", "Comprehensive WiFi management tool", "wifi [COMMAND] [OPTIONS]"));
    table.push(("iwconfig", "Configure wireless network interface", "iwconfig [interface]"));
    table.push(("iwlist", "Get detailed wireless information", "iwlist [interface] [scanning]"));
    table.push(("wpa_cli", "WPA supplicant command line client", "wpa_cli [command]"));
    table.push(("wpa_supplicant", "WPA supplicant daemon", "wpa_supplicant [options]"));
    table.push(("hostapd", "IEEE 802.11 AP daemon", "hostapd [config_file]"));
    table.push(("aircrack-ng", "802.11 WEP and WPA-PSK keys cracking program", "aircrack-ng [options] <.cap/.ivs file(s)>"));
    table.push(("airodump-ng", "802.11 packet capture program", "airodump-ng [options] <interface>"));
    table.push(("aireplay-ng", "802.11 packet injection program", "aireplay-ng [options] <interface>"));
    assert(table_view(table@) =~= command_table());
    table
}

/// The description and usage of the command `name`.
pub fn get_command_help(name: &str) -> (ret: Option<(&'static str, &'static str)>)
    ensures
        match help_lookup(command_table(), name@) {
            Some(h) => ret matches Some(r) && r.0@ == h.0 && r.1@ == h.1,
            None => ret is None,
        },
{
    let table = commands();
    assert(table_view(table@).subrange(0, table@.len() as int) =~= table_view(table@));
    let mut i: usize = 0;
    while i < table.len()
        invariant
            i <= table@.len(),
            table_view(table@) == command_table(),
            help_lookup(command_table(), name@) == help_lookup(
                table_view(table@).subrange(i as int, table@.len() as int),
                name@,
            ),
        decreases table@.len() - i,
    {
        let t = table[i];
        let ghost rest = table_view(table@).subrange(i as int, table@.len() as int);
        assert(rest[0] == (t.0@, t.1@, t.2@));
        if str_eq(t.0, name) {
            return Some((t.1, t.2));
        }
        assert(rest.drop_first() =~= table_view(table@).subrange(i + 1, table@.len() as int));
        i = i + 1;
    }
    None
}

} // verus!
