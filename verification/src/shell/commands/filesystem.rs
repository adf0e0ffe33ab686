//! The file commands: names, descriptions and usage, the permission string
//! of a long listing, and the colouring of names.

use vstd::prelude::*;
use super::ExternalCommand;
use super::wifi::arg_views;
use crate::shell::ShellError;
use crate::textutil::{
    lemma_lt_connex, lemma_lt_irreflexive, lemma_lt_transitive, seq_lt, str_eq, str_lt,
    str_starts_with_char,
};

verus! {

/// `ls`: list directory contents.
pub struct LsCommand;

/// `cat`: display file contents.
pub struct CatCommand;

/// `mkdir`: create directories.
pub struct MkdirCommand;

/// `cp`: copy files and directories.
pub struct CpCommand;

/// `mv`: move or rename files and directories.
pub struct MvCommand;

/// `rm`: remove files and directories.
pub struct RmCommand;

impl ExternalCommand for LsCommand {
    fn name(&self) -> (ret: &'static str)
        ensures
            ret@ == "ls"@,
    {
        "ls"
    }

    fn description(&self) -> (ret: &'static str)
        ensures
            ret@ == "List directory contents"@,
    {
        "List directory contents"
    }

    fn usage(&self) -> (ret: &'static str)
        ensures
            ret@ == "ls [OPTION]... [FILE]..."@,
    {
        "ls [OPTION]... [FILE]..."
    }
}

impl ExternalCommand for CatCommand {
    fn name(&self) -> (ret: &'static str)
        ensures
            ret@ == "cat"@,
    {
        "cat"
    }

    fn description(&self) -> (ret: &'static str)
        ensures
            ret@ == "Display file contents"@,
    {
        "Display file contents"
    }

    fn usage(&self) -> (ret: &'static str)
        ensures
            ret@ == "cat [OPTION]... [FILE]..."@,
    {
        "cat [OPTION]... [FILE]..."
    }
}

impl ExternalCommand for MkdirCommand {
    fn name(&self) -> (ret: &'static str)
        ensures
            ret@ == "mkdir"@,
    {
        "mkdir"
    }

    fn description(&self) -> (ret: &'static str)
        ensures
            ret@ == "Create directories"@,
    {
        "Create directories"
    }

    fn usage(&self) -> (ret: &'static str)
        ensures
            ret@ == "mkdir [OPTION]... DIRECTORY..."@,
    {
        "mkdir [OPTION]... DIRECTORY..."
    }
}

impl ExternalCommand for CpCommand {
    fn name(&self) -> (ret: &'static str)
        ensures
            ret@ == "cp"@,
    {
        "cp"
    }

    fn description(&self) -> (ret: &'static str)
        ensures
            ret@ == "Copy files and directories"@,
    {
        "Copy files and directories"
    }

    fn usage(&self) -> (ret: &'static str)
        ensures
            ret@ == "cp [OPTION]... SOURCE... DEST"@,
    {
        "cp [OPTION]... SOURCE... DEST"
    }
}

impl ExternalCommand for MvCommand {
    fn name(&self) -> (ret: &'static str)
        ensures
            ret@ == "mv"@,
    {
        "mv"
    }

    fn description(&self) -> (ret: &'static str)
        ensures
            ret@ == "Move/rename files and directories"@,
    {
        "Move/rename files and directories"
    }

    fn usage(&self) -> (ret: &'static str)
        ensures
            ret@ == "mv [OPTION]... SOURCE... DEST"@,
    {
        "mv [OPTION]... SOURCE... DEST"
    }
}

impl ExternalCommand for RmCommand {
    fn name(&self) -> (ret: &'static str)
        ensures
            ret@ == "rm"@,
    {
        "rm"
    }

    fn description(&self) -> (ret: &'static str)
        ensures
            ret@ == "Remove files and directories"@,
    {
        "Remove files and directories"
    }

    fn usage(&self) -> (ret: &'static str)
        ensures
            ret@ == "rm [OPTION]... FILE..."@,
    {
        "rm [OPTION]... FILE..."
    }
}

/// `on` if the bits of `mask` in `perms` are not all clear, else '-'.
pub open spec fn perm_char(perms: u32, mask: u32, on: char) -> char {
    if perms & mask != 0 { on } else { '-' }
}

/// The ten characters of a long listing's mode column: the directory flag,
/// then read, write and execute for owner, group and others.
pub open spec fn permission_string(perms: u32) -> Seq<char> {
    seq![
        perm_char(perms, 0o040000, 'd'),
        perm_char(perms, 0o400, 'r'),
        perm_char(perms, 0o200, 'w'),
        perm_char(perms, 0o100, 'x'),
        perm_char(perms, 0o040, 'r'),
        perm_char(perms, 0o020, 'w'),
        perm_char(perms, 0o010, 'x'),
        perm_char(perms, 0o004, 'r'),
        perm_char(perms, 0o002, 'w'),
        perm_char(perms, 0o001, 'x'),
    ]
}

/// `s` followed by `on` when the bits of `mask` in `perms` are not all
/// clear, else by '-'.
fn push_perm(s: String, perms: u32, mask: u32, on: &str) -> (ret: String)
    requires
        on@.len() == 1,
    ensures
        ret@ == s@.push(if perms & mask != 0 { on@[0] } else { '-' }),
{
    proof {
        reveal_strlit("-");
    }
    let ret = if perms & mask != 0 {
        s.concat(on)
    } else {
        s.concat("-")
    };
    assert(ret@ =~= s@.push(if perms & mask != 0 { on@[0] } else { '-' }));
    ret
}

impl LsCommand {
    /// The mode column of a long listing for the mode bits `perms`.
    #[verifier::spinoff_prover]
    pub fn format_permissions(&self, perms: u32) -> (ret: String)
        ensures
            ret@ == permission_string(perms),
    {
        proof {
            reveal_strlit("d");
            reveal_strlit("r");
            reveal_strlit("w");
            reveal_strlit("x");
        }
        let mut result = String::new();
        result = push_perm(result, perms, 0o040000, "d");
        result = push_perm(result, perms, 0o400, "r");
        result = push_perm(result, perms, 0o200, "w");
        result = push_perm(result, perms, 0o100, "x");
        result = push_perm(result, perms, 0o040, "r");
        result = push_perm(result, perms, 0o020, "w");
        result = push_perm(result, perms, 0o010, "x");
        result = push_perm(result, perms, 0o004, "r");
        result = push_perm(result, perms, 0o002, "w");
        result = push_perm(result, perms, 0o001, "x");
        assert(result@ =~= permission_string(perms));
        result
    }

    /// `name` in blue when it is a directory, in green when it is
    /// executable, else as it is.
    pub fn colorize_name(&self, name: &str, is_directory: bool, is_executable: bool) -> (ret: String)
        ensures
            is_directory ==> ret@ == "\x1b[34m"@ + name@ + "\x1b[0m"@,
            !is_directory && is_executable ==> ret@ == "\x1b[32m"@ + name@ + "\x1b[0m"@,
            !is_directory && !is_executable ==> ret@ == name@,
    {
        if is_directory {
            String::from_str("\x1b[34m").concat(name).concat("\x1b[0m")
        } else if is_executable {
            String::from_str("\x1b[32m").concat(name).concat("\x1b[0m")
        } else {
            String::from_str(name)
        }
    }
}

/// The switches of `ls`.
#[derive(Debug, Clone, Copy, PartialEq, Eq, Structural)]
pub struct LsFlags {
    pub long_format: bool,
    pub all_files: bool,
    pub human_readable: bool,
    pub recursive: bool,
    pub sort_by_time: bool,
    pub reverse_sort: bool,
    pub color: bool,
    pub classify: bool,
    pub one_per_line: bool,
}

/// The switches before any option: all off but colour.
pub open spec fn ls_default_flags() -> LsFlags {
    LsFlags {
        long_format: false,
        all_files: false,
        human_readable: false,
        recursive: false,
        sort_by_time: false,
        reverse_sort: false,
        color: true,
        classify: false,
        one_per_line: false,
    }
}

/// The switches after the letters of an option from position `j` on, or
/// the first letter that names none.
pub open spec fn ls_letters(a: Seq<char>, j: int, f: LsFlags) -> Result<LsFlags, char>
    decreases a.len() - j,
{
    if j < 0 || j >= a.len() {
        Ok(f)
    } else {
        let c = a[j];
        if c == 'l' {
            ls_letters(a, j + 1, LsFlags { long_format: true, ..f })
        } else if c == 'a' || c == 'A' {
            ls_letters(a, j + 1, LsFlags { all_files: true, ..f })
        } else if c == 'h' {
            ls_letters(a, j + 1, LsFlags { human_readable: true, ..f })
        } else if c == 'R' {
            ls_letters(a, j + 1, LsFlags { recursive: true, ..f })
        } else if c == 't' {
            ls_letters(a, j + 1, LsFlags { sort_by_time: true, ..f })
        } else if c == 'r' {
            ls_letters(a, j + 1, LsFlags { reverse_sort: true, ..f })
        } else if c == 'F' {
            ls_letters(a, j + 1, LsFlags { classify: true, ..f })
        } else if c == '1' {
            ls_letters(a, j + 1, LsFlags { one_per_line: true, ..f })
        } else {
            Err(c)
        }
    }
}

/// Reading the arguments of `ls` from position `i` on: an argument of a
/// dash and at least one more character is a group of option letters, any
/// other argument a path.
pub open spec fn ls_args(args: Seq<Seq<char>>, i: int, f: LsFlags, paths: Seq<Seq<char>>) -> Result<
    (LsFlags, Seq<Seq<char>>),
    Seq<char>,
>
    decreases args.len() - i,
{
    if i < 0 || i >= args.len() {
        Ok((f, paths))
    } else {
        let a = args[i];
        if a.len() > 1 && a[0] == '-' {
            match ls_letters(a, 1, f) {
                Ok(f2) => ls_args(args, i + 1, f2, paths),
                Err(c) => Err("invalid option: -"@.push(c)),
            }
        } else if a == "--color"@ {
            ls_args(args, i + 1, LsFlags { color: true, ..f }, paths)
        } else if a == "--no-color"@ {
            ls_args(args, i + 1, LsFlags { color: false, ..f }, paths)
        } else {
            ls_args(args, i + 1, f, paths.push(a))
        }
    }
}

/// The switches and paths of `ls`, the current directory when no path is
/// given; or the message of the invalid option.
pub open spec fn ls_spec(args: Seq<Seq<char>>, cwd: Seq<char>) -> Result<(LsFlags, Seq<Seq<char>>), Seq<char>> {
    match ls_args(args, 0, ls_default_flags(), Seq::empty()) {
        Ok(r) => Ok((r.0, if r.1.len() == 0 { seq![cwd] } else { r.1 })),
        Err(e) => Err(e),
    }
}

/// The letters `ls` takes as options.
pub open spec fn ls_letter(c: char) -> bool {
    c == 'l' || c == 'a' || c == 'A' || c == 'h' || c == 'R' || c == 't' || c == 'r' || c == 'F'
        || c == '1'
}

/// Each option letter turns on its own switch and no other: after the
/// letters of `a` from position `j` on, a switch is on exactly when it was
/// before or its letter is among them ('l' long format, 'a' or 'A' all
/// files, 'h' human-readable sizes, 'R' recursion, 't' sorting by time, 'r'
/// reverse order, 'F' classification, '1' one per line), and colour is
/// untouched. The letters are refused exactly when one of them is no
/// option letter, and the error names such a letter.
pub proof fn lemma_ls_letters_switches(a: Seq<char>, j: int, f: LsFlags)
    requires
        0 <= j <= a.len(),
    ensures
        (forall|k: int| j <= k < a.len() ==> ls_letter(#[trigger] a[k])) <==> ls_letters(a, j, f) is Ok,
        ls_letters(a, j, f) matches Ok(g) ==> {
            &&& g.long_format == (f.long_format || a.subrange(j, a.len() as int).contains('l'))
            &&& g.all_files == (f.all_files || a.subrange(j, a.len() as int).contains('a')
                || a.subrange(j, a.len() as int).contains('A'))
            &&& g.human_readable == (f.human_readable || a.subrange(j, a.len() as int).contains('h'))
            &&& g.recursive == (f.recursive || a.subrange(j, a.len() as int).contains('R'))
            &&& g.sort_by_time == (f.sort_by_time || a.subrange(j, a.len() as int).contains('t'))
            &&& g.reverse_sort == (f.reverse_sort || a.subrange(j, a.len() as int).contains('r'))
            &&& g.classify == (f.classify || a.subrange(j, a.len() as int).contains('F'))
            &&& g.one_per_line == (f.one_per_line || a.subrange(j, a.len() as int).contains('1'))
            &&& g.color == f.color
        },
        ls_letters(a, j, f) matches Err(c) ==> a.subrange(j, a.len() as int).contains(c) && !ls_letter(c),
    decreases a.len() - j,
{
    let rest = a.subrange(j, a.len() as int);
    if j == a.len() {
        assert(rest =~= Seq::<char>::empty());
    } else {
        let c = a[j];
        let tail = a.subrange(j + 1, a.len() as int);
        assert(rest =~= seq![c] + tail);
        assert forall|x: char| rest.contains(x) <==> (c == x || tail.contains(x)) by {
            if rest.contains(x) {
                let k = choose|k: int| 0 <= k < rest.len() && rest[k] == x;
                if k > 0 {
                    assert(tail[k - 1] == x);
                }
            }
            if tail.contains(x) {
                let k = choose|k: int| 0 <= k < tail.len() && tail[k] == x;
                assert(rest[k + 1] == x);
            }
            if c == x {
                assert(rest[0] == x);
            }
        }
        if ls_letter(c) {
            let f2 = if c == 'l' {
                LsFlags { long_format: true, ..f }
            } else if c == 'a' || c == 'A' {
                LsFlags { all_files: true, ..f }
            } else if c == 'h' {
                LsFlags { human_readable: true, ..f }
            } else if c == 'R' {
                LsFlags { recursive: true, ..f }
            } else if c == 't' {
                LsFlags { sort_by_time: true, ..f }
            } else if c == 'r' {
                LsFlags { reverse_sort: true, ..f }
            } else if c == 'F' {
                LsFlags { classify: true, ..f }
            } else {
                LsFlags { one_per_line: true, ..f }
            };
            assert(ls_letters(a, j, f) == ls_letters(a, j + 1, f2));
            lemma_ls_letters_switches(a, j + 1, f2);
        } else {
            assert(rest[0] == c);
        }
    }
}

/// Arguments that are no options are the paths to list, in order.
proof fn lemma_ls_plain_args(args: Seq<Seq<char>>, i: int, f: LsFlags, paths: Seq<Seq<char>>)
    requires
        0 <= i <= args.len(),
        forall|k: int| 0 <= k < args.len() ==> !((#[trigger] args[k]).len() > 0 && args[k][0] == '-'),
    ensures
        ls_args(args, i, f, paths) == Ok::<(LsFlags, Seq<Seq<char>>), Seq<char>>(
            (f, paths + args.subrange(i, args.len() as int)),
        ),
    decreases args.len() - i,
{
    if i == args.len() {
        assert(paths + args.subrange(i, args.len() as int) =~= paths);
    } else {
        let a = args[i];
        assert(!(a.len() > 0 && a[0] == '-'));
        if a == "--color"@ || a == "--no-color"@ {
            reveal_strlit("--color");
            reveal_strlit("--no-color");
            assert(a[0] == '-');
        }
        lemma_ls_plain_args(args, i + 1, f, paths.push(a));
        assert(paths.push(a) + args.subrange(i + 1, args.len() as int) =~= paths + args.subrange(
            i,
            args.len() as int,
        ));
    }
}

/// Without options, `ls` lists the paths it was given, in order, with the
/// default switches (only colour on), or the current directory when it
/// was given none.
pub proof fn lemma_ls_paths(args: Seq<Seq<char>>, cwd: Seq<char>)
    requires
        forall|k: int| 0 <= k < args.len() ==> !((#[trigger] args[k]).len() > 0 && args[k][0] == '-'),
    ensures
        ls_spec(args, cwd) == Ok::<(LsFlags, Seq<Seq<char>>), Seq<char>>(
            (ls_default_flags(), if args.len() == 0 { seq![cwd] } else { args }),
        ),
        ls_default_flags().color,
        !ls_default_flags().long_format && !ls_default_flags().all_files
            && !ls_default_flags().human_readable && !ls_default_flags().recursive
            && !ls_default_flags().sort_by_time && !ls_default_flags().reverse_sort
            && !ls_default_flags().classify && !ls_default_flags().one_per_line,
{
    lemma_ls_plain_args(args, 0, ls_default_flags(), Seq::empty());
    assert(Seq::<Seq<char>>::empty() + args.subrange(0, args.len() as int) =~= args);
}

/// What `ls` was asked for: its switches and the paths to list.
pub struct LsOptions {
    pub flags: LsFlags,
    pub paths: Vec<String>,
}

/// Sets the switches of the option letters of `a` from position 1 on.
fn ls_option_letters(a: &str, f: LsFlags) -> (ret: Result<LsFlags, ShellError>)
    ensures
        match ls_letters(a@, 1, f) {
            Ok(f2) => ret == Ok::<LsFlags, ShellError>(f2),
            Err(c) => ret matches Err(ShellError::InvalidArgument(e)) && e@ == "invalid option: -"@.push(c),
        },
{
    let n = a.unicode_len();
    let mut flags = f;
    let mut j: usize = 1;
    if n < 1 {
        return Ok(flags);
    }
    while j < n
        invariant
            n == a@.len(),
            1 <= j <= n,
            ls_letters(a@, 1, f) == ls_letters(a@, j as int, flags),
        decreases n - j,
    {
        let c = a.get_char(j);
        if c == 'l' {
            flags.long_format = true;
        } else if c == 'a' || c == 'A' {
            flags.all_files = true;
        } else if c == 'h' {
            flags.human_readable = true;
        } else if c == 'R' {
            flags.recursive = true;
        } else if c == 't' {
            flags.sort_by_time = true;
        } else if c == 'r' {
            flags.reverse_sort = true;
        } else if c == 'F' {
            flags.classify = true;
        } else if c == '1' {
            flags.one_per_line = true;
        } else {
            let letter = a.substring_char(j, j + 1);
            proof {
                reveal_strlit("invalid option: -");
            }
            let msg = String::from_str("invalid option: -").concat(letter);
            assert(msg@ =~= "invalid option: -"@.push(c));
            return Err(ShellError::InvalidArgument(msg));
        }
        j = j + 1;
    }
    Ok(flags)
}

/// Reads the arguments of `ls`; with no path, the current directory `cwd`
/// is listed.
pub fn parse_ls_options(args: &Vec<String>, cwd: &str) -> (ret: Result<LsOptions, ShellError>)
    ensures
        match ls_spec(arg_views(args@), cwd@) {
            Ok(r) => ret matches Ok(o) && o.flags == r.0 && arg_views(o.paths@) == r.1,
            Err(m) => ret matches Err(ShellError::InvalidArgument(e)) && e@ == m,
        },
{
    let ghost av = arg_views(args@);
    let mut flags = LsFlags {
        long_format: false,
        all_files: false,
        human_readable: false,
        recursive: false,
        sort_by_time: false,
        reverse_sort: false,
        color: true,
        classify: false,
        one_per_line: false,
    };
    let mut paths: Vec<String> = Vec::new();
    let mut i: usize = 0;
    assert(arg_views(paths@) =~= Seq::<Seq<char>>::empty());
    while i < args.len()
        invariant
            av == arg_views(args@),
            i <= args.len(),
            ls_args(av, 0, ls_default_flags(), Seq::empty()) == ls_args(
                av,
                i as int,
                flags,
                arg_views(paths@),
            ),
        decreases args.len() - i,
    {
        let a = args[i].as_str();
        assert(av[i as int] == a@);
        if a.unicode_len() > 1 && a.get_char(0) == '-' {
            match ls_option_letters(a, flags) {
                Ok(f2) => {
                    flags = f2;
                },
                Err(e) => {
                    return Err(e);
                },
            }
        } else if str_eq(a, "--color") {
            flags.color = true;
        } else if str_eq(a, "--no-color") {
            flags.color = false;
        } else {
            let ghost before = paths@;
            paths.push(args[i].clone());
            assert(arg_views(paths@) =~= arg_views(before).push(a@));
        }
        i = i + 1;
    }
    if paths.len() == 0 {
        paths.push(String::from_str(cwd));
        assert(arg_views(paths@) =~= seq![cwd@]);
    }
    Ok(LsOptions { flags, paths })
}

/// An entry of a directory listing.
pub struct DirEntry {
    pub name: String,
    pub is_directory: bool,
    pub modified_time: u64,
}

/// The entry's name begins with a dot.
pub open spec fn is_hidden(e: DirEntry) -> bool {
    e.name@.len() > 0 && e.name@[0] == '.'
}

/// The entries a listing shows, in their order: all of them with
/// `all_files`, else those whose name does not begin with a dot.
pub open spec fn shown_entries(es: Seq<DirEntry>, all_files: bool) -> Seq<DirEntry>
    decreases es.len(),
{
    if es.len() == 0 {
        es
    } else {
        let rest = shown_entries(es.drop_last(), all_files);
        if all_files || !is_hidden(es.last()) {
            rest.push(es.last())
        } else {
            rest
        }
    }
}

/// `a` may be listed before `b`: by name in increasing order, or by time
/// newest first; each the other way round with `reverse`.
pub open spec fn listed_before(a: DirEntry, b: DirEntry, by_time: bool, reverse: bool) -> bool {
    if by_time {
        if reverse {
            a.modified_time <= b.modified_time
        } else {
            a.modified_time >= b.modified_time
        }
    } else if reverse {
        !seq_lt(a.name@, b.name@)
    } else {
        !seq_lt(b.name@, a.name@)
    }
}

proof fn lemma_listed_total(a: DirEntry, b: DirEntry, by_time: bool, reverse: bool)
    ensures
        listed_before(a, b, by_time, reverse) || listed_before(b, a, by_time, reverse),
{
    if seq_lt(a.name@, b.name@) && seq_lt(b.name@, a.name@) {
        lemma_lt_transitive(a.name@, b.name@, a.name@, 0);
        lemma_lt_irreflexive(a.name@, 0);
    }
}

proof fn lemma_listed_transitive(a: DirEntry, b: DirEntry, c: DirEntry, by_time: bool, reverse: bool)
    requires
        listed_before(a, b, by_time, reverse),
        listed_before(b, c, by_time, reverse),
    ensures
        listed_before(a, c, by_time, reverse),
{
    if !by_time {
        if a.name@ != b.name@ {
            lemma_lt_connex(a.name@, b.name@);
        }
        if b.name@ != c.name@ {
            lemma_lt_connex(b.name@, c.name@);
        }
        if reverse {
            if seq_lt(a.name@, c.name@) && b.name@ != c.name@ {
                lemma_lt_transitive(a.name@, c.name@, b.name@, 0);
            }
        } else {
            if seq_lt(c.name@, a.name@) && a.name@ != b.name@ {
                lemma_lt_transitive(c.name@, a.name@, b.name@, 0);
            }
        }
    }
}

/// The entries are in listing order.
pub open spec fn in_listing_order(es: Seq<DirEntry>, by_time: bool, reverse: bool) -> bool {
    forall|i: int, j: int| 0 <= i < j < es.len() ==> listed_before(es[i], es[j], by_time, reverse)
}

/// The entries that tie with `x`: each may be listed before the other.
pub open spec fn ties_with(x: DirEntry, by_time: bool, reverse: bool) -> spec_fn(DirEntry) -> bool {
    |e: DirEntry| listed_before(e, x, by_time, reverse) && listed_before(x, e, by_time, reverse)
}

/// No entry of `s` passes `p`: then filtering by `p` leaves nothing.
proof fn lemma_filter_none(s: Seq<DirEntry>, p: spec_fn(DirEntry) -> bool)
    requires
        forall|m: int| 0 <= m < s.len() ==> !p(#[trigger] s[m]),
    ensures
        s.filter(p) == Seq::<DirEntry>::empty(),
{
    if s.filter(p).len() > 0 {
        s.lemma_filter_pred(p, 0);
        s.lemma_filter_contains_rev(p, s.filter(p)[0]);
    }
    assert(s.filter(p) =~= Seq::<DirEntry>::empty());
}

/// Inserting `e` into listing order after every entry that may come before
/// it puts it last among the entries that tie with any `x`.
proof fn lemma_insert_keeps_ties(
    s: Seq<DirEntry>,
    k: int,
    e: DirEntry,
    x: DirEntry,
    by_time: bool,
    reverse: bool,
)
    requires
        in_listing_order(s, by_time, reverse),
        0 <= k <= s.len(),
        k < s.len() ==> !listed_before(s[k], e, by_time, reverse),
    ensures
        s.insert(k, e).filter(ties_with(x, by_time, reverse)) == (if ties_with(x, by_time, reverse)(e) {
            s.filter(ties_with(x, by_time, reverse)).push(e)
        } else {
            s.filter(ties_with(x, by_time, reverse))
        }),
{
    let p = ties_with(x, by_time, reverse);
    let front = s.take(k);
    let back = s.skip(k);
    assert(s == front + back);
    assert(s.insert(k, e) == front + seq![e] + back);
    Seq::filter_distributes_over_add(front, back, p);
    Seq::filter_distributes_over_add(front + seq![e], back, p);
    Seq::filter_distributes_over_add(front, seq![e], p);
    assert(seq![e].drop_last() =~= Seq::<DirEntry>::empty());
    assert(Seq::<DirEntry>::empty().filter(p) == Seq::<DirEntry>::empty());
    assert(seq![e].len() == 1 && seq![e].last() == e);
    reveal_with_fuel(Seq::filter, 2);
    assert(seq![e].filter(p) == (if p(e) { Seq::<DirEntry>::empty().push(e) } else { Seq::<DirEntry>::empty() }));
    assert(s.insert(k, e).filter(p) == front.filter(p) + seq![e].filter(p) + back.filter(p));
    assert(s.filter(p) == front.filter(p) + back.filter(p));
    if p(e) {
        assert forall|m: int| 0 <= m < back.len() implies !p(#[trigger] back[m]) by {
            if p(back[m]) {
                assert(back[m] == s[k + m]);
                if m > 0 {
                    if listed_before(s[k + m], e, by_time, reverse) {
                        lemma_listed_transitive(s[k], s[k + m], e, by_time, reverse);
                    }
                }
                lemma_listed_transitive(s[k + m], x, e, by_time, reverse);
            }
        }
        lemma_filter_none(back, p);
        assert(front.filter(p) + Seq::<DirEntry>::empty().push(e) + Seq::<DirEntry>::empty() =~= (
        front.filter(p) + Seq::<DirEntry>::empty()).push(e));
    } else {
        assert(front.filter(p) + Seq::<DirEntry>::empty() + back.filter(p) =~= front.filter(p)
            + back.filter(p));
    }
}

/// Whether `a` may be listed before `b`.
fn goes_before(a: &DirEntry, b: &DirEntry, by_time: bool, reverse: bool) -> (ret: bool)
    ensures
        ret == listed_before(*a, *b, by_time, reverse),
{
    if by_time {
        if reverse {
            a.modified_time <= b.modified_time
        } else {
            a.modified_time >= b.modified_time
        }
    } else if reverse {
        !str_lt(a.name.as_str(), b.name.as_str())
    } else {
        !str_lt(b.name.as_str(), a.name.as_str())
    }
}

/// A copy of the entry.
fn copy_entry(e: &DirEntry) -> (ret: DirEntry)
    ensures
        ret == *e,
{
    DirEntry { name: e.name.clone(), is_directory: e.is_directory, modified_time: e.modified_time }
}

/// The entries `ls` lists and their order: hidden entries dropped unless
/// `all_files`, then ordered by name, or by time with `by_time` (newest
/// first), reversed with `reverse`; entries that tie keep their order.
pub fn arrange_entries(entries: Vec<DirEntry>, all_files: bool, by_time: bool, reverse: bool) -> (ret: Vec<
    DirEntry,
>)
    ensures
        ret@.to_multiset() == shown_entries(entries@, all_files).to_multiset(),
        in_listing_order(ret@, by_time, reverse),
        forall|x: DirEntry|
            ret@.filter(#[trigger] ties_with(x, by_time, reverse)) == shown_entries(entries@, all_files).filter(
                ties_with(x, by_time, reverse),
            ),
{
    let mut out: Vec<DirEntry> = Vec::new();
    let mut i: usize = 0;
    assert(entries@.take(0) =~= Seq::<DirEntry>::empty());
    while i < entries.len()
        invariant
            i <= entries.len(),
            out@.to_multiset() == shown_entries(entries@.take(i as int), all_files).to_multiset(),
            in_listing_order(out@, by_time, reverse),
            forall|x: DirEntry|
                out@.filter(#[trigger] ties_with(x, by_time, reverse)) == shown_entries(
                    entries@.take(i as int),
                    all_files,
                ).filter(ties_with(x, by_time, reverse)),
        decreases entries.len() - i,
    {
        let ghost before = entries@.take(i as int);
        assert(entries@.take(i + 1).drop_last() =~= before);
        assert(entries@.take(i + 1).last() == entries@[i as int]);
        let e = &entries[i];
        let ghost shown_before = shown_entries(before, all_files);
        let ghost shown_after = shown_entries(entries@.take(i + 1), all_files);
        if all_files || !str_starts_with_char(e.name.as_str(), '.') {
            assert(shown_after == shown_before.push(*e));
            let mut k: usize = 0;
            while k < out.len() && goes_before(&out[k], e, by_time, reverse)
                invariant
                    k <= out.len(),
                    forall|m: int| 0 <= m < k ==> listed_before(out@[m], *e, by_time, reverse),
                decreases out.len() - k,
            {
                k = k + 1;
            }
            let ghost s = out@;
            out.insert(k, copy_entry(e));
            proof {
                if k < s.len() {
                    lemma_listed_total(s[k as int], *e, by_time, reverse);
                }
                assert forall|a: int, b: int| 0 <= a < b < out@.len() implies listed_before(
                    out@[a],
                    out@[b],
                    by_time,
                    reverse,
                ) by {
                    if a < k && b == k {
                    } else if a == k && b > k {
                        if b - 1 > k {
                            lemma_listed_transitive(*e, s[k as int], s[b - 1], by_time, reverse);
                        }
                    } else if b > k && a < k {
                        assert(out@[b] == s[b - 1]);
                    } else if a > k {
                        assert(out@[a] == s[a - 1] && out@[b] == s[b - 1]);
                    }
                }
                assert(out@ == s.insert(k as int, *e));
                vstd::seq_lib::to_multiset_insert(s, k as int, *e);
                vstd::seq_lib::to_multiset_build(shown_before, *e);
                assert forall|x: DirEntry| out@.filter(#[trigger] ties_with(x, by_time, reverse))
                    == shown_after.filter(ties_with(x, by_time, reverse)) by {
                    lemma_insert_keeps_ties(s, k as int, *e, x, by_time, reverse);
                    let p = ties_with(x, by_time, reverse);
                    assert(shown_before.push(*e).drop_last() =~= shown_before);
                    assert(shown_before.push(*e).last() == *e);
                    assert(shown_after == shown_before.push(*e));
                    reveal(Seq::filter);
                    assert(shown_before.push(*e).filter(p) == (if p(*e) {
                        shown_before.filter(p).push(*e)
                    } else {
                        shown_before.filter(p)
                    }));
                    assert(shown_after.filter(p) == (if p(*e) {
                        shown_before.filter(p).push(*e)
                    } else {
                        shown_before.filter(p)
                    }));
                    assert(s.filter(p) == shown_before.filter(p));
                }
            }
        } else {
            assert(shown_after == shown_before);
        }
        i = i + 1;
    }
    assert(entries@.take(entries.len() as int) =~= entries@);
    out
}

} // verus!
