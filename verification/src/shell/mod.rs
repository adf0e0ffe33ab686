//! The shell: its configuration, variables and aliases, the current
//! directory, the exit status, and its errors.

pub mod commands;
pub mod variables;

use vstd::prelude::*;
use crate::filesystem::{FileSystem, normalize};
use crate::textutil::{str_eq, str_starts_with_char};
use variables::Variables;

verus! {

/// How the shell behaves.
#[derive(Debug, Clone)]
pub struct ShellConfig {
    pub prompt: String,
    pub history_size: usize,
    pub completion_enabled: bool,
    pub job_control_enabled: bool,
    pub aliases_enabled: bool,
    pub variables_enabled: bool,
    pub color_enabled: bool,
    pub vi_mode: bool,
    pub auto_cd: bool,
    pub glob_enabled: bool,
}

impl Default for ShellConfig {
    /// Prompt "rustix$ ", 1000 history entries, vi mode off, everything
    /// else on.
    fn default() -> (ret: Self)
        ensures
            ret.prompt@ == "rustix$ "@,
            ret.history_size == 1000,
            ret.completion_enabled && ret.job_control_enabled && ret.aliases_enabled,
            ret.variables_enabled && ret.color_enabled && !ret.vi_mode,
            ret.auto_cd && ret.glob_enabled,
    {
        ShellConfig {
            prompt: String::from_str("rustix$ "),
            history_size: 1000,
            completion_enabled: true,
            job_control_enabled: true,
            aliases_enabled: true,
            variables_enabled: true,
            color_enabled: true,
            vi_mode: false,
            auto_cd: true,
            glob_enabled: true,
        }
    }
}

/// What can go wrong in the shell, with the detail.
#[derive(Debug, Clone)]
pub enum ShellError {
    CommandNotFound(String),
    InvalidSyntax(String),
    PermissionDenied(String),
    FileNotFound(String),
    DirectoryNotFound(String),
    InvalidArgument(String),
    IoError(String),
    NetworkError(String),
    BluetoothError(String),
    WifiError(String),
    SystemError(String),
}

/// The text of an error, as the shell prints it.
pub open spec fn error_text(e: ShellError) -> Seq<char> {
    match e {
        ShellError::CommandNotFound(s) => "command not found: "@ + s@,
        ShellError::InvalidSyntax(s) => "syntax error: "@ + s@,
        ShellError::PermissionDenied(s) => "permission denied: "@ + s@,
        ShellError::FileNotFound(s) => "file not found: "@ + s@,
        ShellError::DirectoryNotFound(s) => "directory not found: "@ + s@,
        ShellError::InvalidArgument(s) => "invalid argument: "@ + s@,
        ShellError::IoError(s) => "I/O error: "@ + s@,
        ShellError::NetworkError(s) => "network error: "@ + s@,
        ShellError::BluetoothError(s) => "bluetooth error: "@ + s@,
        ShellError::WifiError(s) => "wifi error: "@ + s@,
        ShellError::SystemError(s) => "system error: "@ + s@,
    }
}

impl ShellError {
    /// The text of the error, as the shell prints it.
    pub fn message(&self) -> (ret: String)
        ensures
            ret@ == error_text(*self),
    {
        match self {
            ShellError::CommandNotFound(s) => String::from_str("command not found: ").concat(s.as_str()),
            ShellError::InvalidSyntax(s) => String::from_str("syntax error: ").concat(s.as_str()),
            ShellError::PermissionDenied(s) => String::from_str("permission denied: ").concat(s.as_str()),
            ShellError::FileNotFound(s) => String::from_str("file not found: ").concat(s.as_str()),
            ShellError::DirectoryNotFound(s) => String::from_str("directory not found: ").concat(
                s.as_str(),
            ),
            ShellError::InvalidArgument(s) => String::from_str("invalid argument: ").concat(s.as_str()),
            ShellError::IoError(s) => String::from_str("I/O error: ").concat(s.as_str()),
            ShellError::NetworkError(s) => String::from_str("network error: ").concat(s.as_str()),
            ShellError::BluetoothError(s) => String::from_str("bluetooth error: ").concat(s.as_str()),
            ShellError::WifiError(s) => String::from_str("wifi error: ").concat(s.as_str()),
            ShellError::SystemError(s) => String::from_str("system error: ").concat(s.as_str()),
        }
    }
}

/// A shell result.
pub type ShellResult<T> = Result<T, ShellError>;

/// The directory above `cur`: everything before its last slash, or the
/// root when that slash is the first character or there is none.
pub open spec fn parent_path(cur: Seq<char>) -> Seq<char> {
    if cur.contains('/') && last_slash(cur) > 0 {
        cur.subrange(0, last_slash(cur))
    } else {
        "/"@
    }
}

/// The position of the last slash.
pub open spec fn last_slash(s: Seq<char>) -> int {
    choose|k: int| 0 <= k < s.len() && s[k] == '/' && forall|j: int| k < j < s.len() ==> s[j] != '/'
}

/// The directory `cd path` goes to from `cur`, with `home` the value of
/// HOME if set.
pub open spec fn cd_target(cur: Seq<char>, path: Seq<char>, home: Option<Seq<char>>) -> Seq<char> {
    if path.len() > 0 && path[0] == '/' {
        path
    } else if path == ".."@ {
        parent_path(cur)
    } else if path == "."@ {
        cur
    } else if path == "~"@ {
        match home {
            Some(h) => h,
            None => "/"@,
        }
    } else if cur == "/"@ {
        "/"@ + path
    } else {
        cur + "/"@ + path
    }
}

/// The prompt: user, host and directory, in green and blue when colours
/// are on.
pub open spec fn prompt_text(user: Seq<char>, dir: Seq<char>, color: bool) -> Seq<char> {
    if color {
        "\x1b[32m"@ + user + "@rustix\x1b[0m:\x1b[34m"@ + dir + "\x1b[0m$ "@
    } else {
        user + "@rustix:"@ + dir + "$ "@
    }
}

/// The shell's state.
pub struct Shell {
    config: ShellConfig,
    variables: Variables,
    aliases: Variables,
    current_dir: String,
    exit_code: i32,
    running: bool,
}

impl Shell {
    /// The shell's variables.
    pub closed spec fn vars(&self) -> Map<Seq<char>, Seq<char>> {
        self.variables@
    }

    /// The shell's aliases.
    pub closed spec fn alias_map(&self) -> Map<Seq<char>, Seq<char>> {
        self.aliases@
    }

    /// The current directory.
    pub closed spec fn cwd(&self) -> Seq<char> {
        self.current_dir@
    }

    /// The last exit status.
    pub closed spec fn status(&self) -> i32 {
        self.exit_code
    }

    /// Whether the shell is still running.
    pub closed spec fn alive(&self) -> bool {
        self.running
    }

    /// The configuration.
    pub closed spec fn config(&self) -> ShellConfig {
        self.config
    }

    /// The variable and alias maps hold each name once.
    pub closed spec fn wf(&self) -> bool {
        self.variables.wf() && self.aliases.wf()
    }

    /// A running shell with the default configuration, no variables or
    /// aliases, at the root, with status 0.
    pub fn new() -> (ret: Self)
        ensures
            ret.wf(),
            ret.vars() == Map::<Seq<char>, Seq<char>>::empty(),
            ret.alias_map() == Map::<Seq<char>, Seq<char>>::empty(),
            ret.cwd() == "/"@,
            ret.status() == 0,
            ret.alive(),
            ret.config().prompt@ == "rustix$ "@,
            ret.config().history_size == 1000,
    {
        Shell::with_config(ShellConfig::default())
    }

    /// A running shell with `config`, no variables or aliases, at the
    /// root, with status 0.
    pub fn with_config(config: ShellConfig) -> (ret: Self)
        ensures
            ret.wf(),
            ret.vars() == Map::<Seq<char>, Seq<char>>::empty(),
            ret.alias_map() == Map::<Seq<char>, Seq<char>>::empty(),
            ret.cwd() == "/"@,
            ret.status() == 0,
            ret.alive(),
            ret.config() == config,
    {
        Shell {
            config,
            variables: Variables::new(),
            aliases: Variables::new(),
            current_dir: String::from_str("/"),
            exit_code: 0,
            running: true,
        }
    }

    /// The variables and aliases a session starts with.
    pub fn setup_environment(&mut self)
        requires
            old(self).wf(),
        ensures
            final(self).wf(),
            final(self).vars() == old(self).vars().insert("PATH"@, "/bin:/usr/bin:/usr/local/bin"@).insert(
                "HOME"@,
                "/home/user"@,
            ).insert("USER"@, "user"@).insert("SHELL"@, "/bin/rustix-shell"@).insert(
                "PWD"@,
                old(self).cwd(),
            ).insert("TERM"@, "xterm-256color"@),
            final(self).alias_map() == old(self).alias_map().insert("ll"@, "ls -la"@).insert(
                "la"@,
                "ls -a"@,
            ).insert("l"@, "ls -CF"@).insert(".."@, "cd .."@).insert("..."@, "cd ../.."@).insert(
                "grep"@,
                "grep --color=auto"@,
            ).insert("fgrep"@, "fgrep --color=auto"@).insert("egrep"@, "egrep --color=auto"@),
            final(self).cwd() == old(self).cwd(),
            final(self).status() == old(self).status(),
            final(self).alive() == old(self).alive(),
            final(self).config() == old(self).config(),
    {
        self.variables.set(String::from_str("PATH"), String::from_str("/bin:/usr/bin:/usr/local/bin"));
        self.variables.set(String::from_str("HOME"), String::from_str("/home/user"));
        self.variables.set(String::from_str("USER"), String::from_str("user"));
        self.variables.set(String::from_str("SHELL"), String::from_str("/bin/rustix-shell"));
        self.variables.set(String::from_str("PWD"), self.current_dir.clone());
        self.variables.set(String::from_str("TERM"), String::from_str("xterm-256color"));
        self.aliases.set(String::from_str("ll"), String::from_str("ls -la"));
        self.aliases.set(String::from_str("la"), String::from_str("ls -a"));
        self.aliases.set(String::from_str("l"), String::from_str("ls -CF"));
        self.aliases.set(String::from_str(".."), String::from_str("cd .."));
        self.aliases.set(String::from_str("..."), String::from_str("cd ../.."));
        self.aliases.set(String::from_str("grep"), String::from_str("grep --color=auto"));
        self.aliases.set(String::from_str("fgrep"), String::from_str("fgrep --color=auto"));
        self.aliases.set(String::from_str("egrep"), String::from_str("egrep --color=auto"));
    }

    /// The prompt, with the value of USER (or "user") and the current
    /// directory.
    pub fn generate_prompt(&self) -> (ret: String)
        requires
            self.wf(),
        ensures
            ret@ == prompt_text(
                if self.vars().contains_key("USER"@) {
                    self.vars()["USER"@]
                } else {
                    "user"@
                },
                self.cwd(),
                self.config().color_enabled,
            ),
    {
        let user = match self.variables.get("USER") {
            Some(u) => u,
            None => String::from_str("user"),
        };
        if self.config.color_enabled {
            String::from_str("\x1b[32m").concat(user.as_str()).concat("@rustix\x1b[0m:\x1b[34m").concat(
                self.current_dir.as_str(),
            ).concat("\x1b[0m$ ")
        } else {
            user.concat("@rustix:").concat(self.current_dir.as_str()).concat("$ ")
        }
    }

    /// The position of the last slash in `s`, if any.
    fn find_last_slash(s: &str) -> (ret: Option<usize>)
        ensures
            ret is None ==> !s@.contains('/'),
            ret matches Some(k) ==> k < s@.len() && s@[k as int] == '/' && k == last_slash(s@),
    {
        let n = s.unicode_len();
        let mut i: usize = n;
        while i > 0
            invariant
                i <= n,
                n == s@.len(),
                forall|j: int| i <= j < n ==> s@[j] != '/',
            decreases i,
        {
            if s.get_char(i - 1) == '/' {
                let k = i - 1;
                proof {
                    let m = last_slash(s@);
                    assert(0 <= k < s@.len() && s@[k as int] == '/' && forall|j: int|
                        k < j < s@.len() ==> s@[j] != '/');
                    assert(0 <= m < s@.len() && s@[m] == '/' && forall|j: int| m < j < s@.len() ==> s@[j]
                        != '/');
                    if m < k {
                        assert(s@[k as int] != '/');
                    } else if m > k {
                        assert(s@[m] != '/');
                    }
                }
                return Some(k);
            }
            i = i - 1;
        }
        None
    }

    /// The directory above `cur`.
    fn parent_of(cur: &str) -> (ret: String)
        ensures
            ret@ == parent_path(cur@),
    {
        proof {
            reveal_strlit("/");
        }
        match Shell::find_last_slash(cur) {
            Some(k) => {
                assert(cur@[k as int] == '/');
                assert(cur@.contains('/'));
                if k == 0 {
                    String::from_str("/")
                } else {
                    String::from_str(cur.substring_char(0, k))
                }
            },
            None => String::from_str("/"),
        }
    }

    /// Changes the current directory to `path` (absolute, "..", ".", "~"
    /// or relative), when `fs` has a directory there; PWD and OLDPWD follow.
    pub fn change_directory(&mut self, path: &str, fs: &FileSystem) -> (ret: ShellResult<i32>)
        requires
            old(self).wf(),
            fs.wf(),
        ensures
            final(self).wf(),
            final(self).status() == old(self).status(),
            final(self).alive() == old(self).alive(),
            final(self).config() == old(self).config(),
            final(self).alias_map() == old(self).alias_map(),
            ({
                let t = cd_target(
                    old(self).cwd(),
                    path@,
                    if old(self).vars().contains_key("HOME"@) {
                        Some(old(self).vars()["HOME"@])
                    } else {
                        None
                    },
                );
                let p = normalize(fs.cwd(), t);
                if fs.entries().contains_key(p) && fs.entries()[p].1 {
                    &&& ret == Ok::<i32, ShellError>(0)
                    &&& final(self).cwd() == t
                    &&& final(self).vars() == old(self).vars().insert("PWD"@, t).insert(
                        "OLDPWD"@,
                        old(self).cwd(),
                    )
                } else {
                    &&& (ret matches Err(ShellError::DirectoryNotFound(d)) && d@ == t)
                    &&& final(self).cwd() == old(self).cwd()
                    &&& final(self).vars() == old(self).vars()
                }
            }),
    {
        proof {
            reveal_strlit("/");
            reveal_strlit("..");
            reveal_strlit(".");
            reveal_strlit("~");
        }
        let new_path = if str_starts_with_char(path, '/') {
            String::from_str(path)
        } else if str_eq(path, "..") {
            Shell::parent_of(self.current_dir.as_str())
        } else if str_eq(path, ".") {
            self.current_dir.clone()
        } else if str_eq(path, "~") {
            match self.variables.get("HOME") {
                Some(h) => h,
                None => String::from_str("/"),
            }
        } else if str_eq(self.current_dir.as_str(), "/") {
            String::from_str("/").concat(path)
        } else {
            self.current_dir.clone().concat("/").concat(path)
        };
        if !fs.is_directory(new_path.as_str()) {
            return Err(ShellError::DirectoryNotFound(new_path));
        }
        let old_dir = self.current_dir.clone();
        self.current_dir = new_path;
        self.variables.set(String::from_str("PWD"), self.current_dir.clone());
        self.variables.set(String::from_str("OLDPWD"), old_dir);
        Ok(0)
    }

    /// The current directory.
    pub fn get_current_directory(&self) -> (ret: &str)
        ensures
            ret@ == self.cwd(),
    {
        self.current_dir.as_str()
    }

    /// The value of the variable `name`, if set.
    pub fn get_variable(&self, name: &str) -> (ret: Option<String>)
        requires
            self.wf(),
        ensures
            ret is Some <==> self.vars().contains_key(name@),
            ret matches Some(v) ==> v@ == self.vars()[name@],
    {
        self.variables.get(name)
    }

    /// Gives the variable `name` the value `value`.
    pub fn set_variable(&mut self, name: String, value: String)
        requires
            old(self).wf(),
        ensures
            final(self).wf(),
            final(self).vars() == old(self).vars().insert(name@, value@),
            final(self).alias_map() == old(self).alias_map(),
            final(self).cwd() == old(self).cwd(),
            final(self).status() == old(self).status(),
            final(self).alive() == old(self).alive(),
            final(self).config() == old(self).config(),
    {
        self.variables.set(name, value);
    }

    /// The last exit status.
    pub fn get_exit_code(&self) -> (ret: i32)
        ensures
            ret == self.status(),
    {
        self.exit_code
    }

    /// Records the exit status `code` and stops the shell.
    pub fn exit(&mut self, code: i32)
        ensures
            final(self).status() == code,
            !final(self).alive(),
            final(self).vars() == old(self).vars(),
            final(self).alias_map() == old(self).alias_map(),
            final(self).cwd() == old(self).cwd(),
            final(self).config() == old(self).config(),
            final(self).wf() == old(self).wf(),
    {
        self.exit_code = code;
        self.running = false;
    }

    /// Whether the shell is still running.
    pub fn is_running(&self) -> (ret: bool)
        ensures
            ret == self.alive(),
    {
        self.running
    }
}

} // verus!
