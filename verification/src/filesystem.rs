//! An in-memory filesystem: files and directories by absolute path, in
//! path order, and a current directory that relative paths start from.

use vstd::prelude::*;
use vstd::string::StringSliceAdditionalSpecFns;
use crate::textutil::{
    seq_lt, starts_with, lt_from, lemma_lt_irreflexive, lemma_lt_transitive, lemma_lt_connex,
    str_eq, str_lt, str_starts_with, str_contains_char, str_starts_with_char,
};

verus! {

/// A file or a directory.
#[derive(Debug, Clone)]
pub struct File {
    pub name: String,
    pub content: Vec<u8>,
    pub size: usize,
    pub is_directory: bool,
}

impl File {
    pub fn new_file(name: String, content: Vec<u8>) -> (ret: Self)
        ensures
            ret.name@ == name@,
            ret.content@ == content@,
            ret.size == content@.len(),
            !ret.is_directory,
    {
        let size = content.len();
        File { name, content, size, is_directory: false }
    }

    pub fn new_directory(name: String) -> (ret: Self)
        ensures
            ret.name@ == name@,
            ret.content@ == Seq::<u8>::empty(),
            ret.size == 0,
            ret.is_directory,
    {
        File { name, content: Vec::new(), size: 0, is_directory: true }
    }
}

/// What the filesystem holds at a path: the content, and whether it is a
/// directory.
pub type FsEntry = (Seq<u8>, bool);

/// The slash that separates path components.
pub open spec fn slash() -> Seq<char> {
    seq!['/']
}

/// `path` made absolute: kept when it starts with a slash, else put under
/// `cwd`.
pub open spec fn normalize(cwd: Seq<char>, path: Seq<char>) -> Seq<char> {
    if path.len() > 0 && path[0] == '/' {
        path
    } else if cwd == slash() {
        slash() + path
    } else {
        cwd + slash() + path
    }
}

/// Creating an entry at `p`: refused with `exists_msg` when `p` is taken.
pub open spec fn create_spec(
    m: Map<Seq<char>, FsEntry>,
    p: Seq<char>,
    entry: FsEntry,
    exists_msg: Seq<char>,
) -> Result<Map<Seq<char>, FsEntry>, Seq<char>> {
    if m.contains_key(p) {
        Err(exists_msg)
    } else {
        Ok(m.insert(p, entry))
    }
}

/// Reading the file at `p`.
pub open spec fn read_spec(m: Map<Seq<char>, FsEntry>, p: Seq<char>) -> Result<Seq<u8>, Seq<char>> {
    if !m.contains_key(p) {
        Err("File not found"@)
    } else if m[p].1 {
        Err("Path is a directory"@)
    } else {
        Ok(m[p].0)
    }
}

/// Writing the file at `p`, which is created when missing.
pub open spec fn write_spec(m: Map<Seq<char>, FsEntry>, p: Seq<char>, c: Seq<u8>) -> Result<
    Map<Seq<char>, FsEntry>,
    Seq<char>,
> {
    if m.contains_key(p) && m[p].1 {
        Err("Path is a directory"@)
    } else {
        Ok(m.insert(p, (c, false)))
    }
}

/// Deleting the entry at `p`, file or directory.
pub open spec fn delete_spec(m: Map<Seq<char>, FsEntry>, p: Seq<char>) -> Result<
    Map<Seq<char>, FsEntry>,
    Seq<char>,
> {
    if m.contains_key(p) {
        Ok(m.remove(p))
    } else {
        Err("File not found"@)
    }
}

/// Changing to the directory `p`: the new current directory.
pub open spec fn change_dir_spec(m: Map<Seq<char>, FsEntry>, p: Seq<char>) -> Result<
    Seq<char>,
    Seq<char>,
> {
    if !m.contains_key(p) {
        Err("Directory not found"@)
    } else if !m[p].1 {
        Err("Path is not a directory"@)
    } else {
        Ok(p)
    }
}

/// The prefix that paths inside directory `p` start with.
pub open spec fn dir_prefix(p: Seq<char>) -> Seq<char> {
    if p == slash() { slash() } else { p + slash() }
}

/// The names of the entries directly inside the directory `p`, among
/// `paths`, in the order of `paths`.
pub open spec fn dir_listing(paths: Seq<Seq<char>>, p: Seq<char>) -> Seq<Seq<char>>
    decreases paths.len(),
{
    if paths.len() == 0 {
        Seq::empty()
    } else {
        let rest = dir_listing(paths.drop_last(), p);
        let k = paths.last();
        let prefix = dir_prefix(p);
        let rel = k.subrange(prefix.len() as int, k.len() as int);
        if starts_with(k, prefix) && k != p && !rel.contains('/') {
            rest.push(rel)
        } else {
            rest
        }
    }
}

/// Listing the directory `p`.
pub open spec fn list_spec(m: Map<Seq<char>, FsEntry>, paths: Seq<Seq<char>>, p: Seq<char>) -> Result<
    Seq<Seq<char>>,
    Seq<char>,
> {
    if !m.contains_key(p) {
        Err("Directory not found"@)
    } else if !m[p].1 {
        Err("Path is not a directory"@)
    } else {
        Ok(dir_listing(paths, p))
    }
}

/// The paths are in strictly increasing order.
pub open spec fn sorted_paths(paths: Seq<Seq<char>>) -> bool {
    forall|i: int, j: int| 0 <= i < j < paths.len() ==> seq_lt(#[trigger] paths[i], #[trigger] paths[j])
}

/// The filesystem.
pub struct FileSystem {
    files: Vec<File>,
    current_directory: String,
    entries: Ghost<Map<Seq<char>, FsEntry>>,
}

impl FileSystem {
    /// What each path holds.
    pub closed spec fn entries(&self) -> Map<Seq<char>, FsEntry> {
        self.entries@
    }

    /// The paths, in order.
    pub closed spec fn paths(&self) -> Seq<Seq<char>> {
        self.files@.map_values(|f: File| f.name@)
    }

    /// The current directory.
    pub closed spec fn cwd(&self) -> Seq<char> {
        self.current_directory@
    }

    /// The files are in path order, each path once; the entries are what
    /// the files hold; every size is its content's length; the current
    /// directory is absolute.
    pub closed spec fn wf(&self) -> bool {
        &&& sorted_paths(self.paths())
        &&& forall|k: Seq<char>| #[trigger]
            self.entries@.contains_key(k) <==> self.paths().contains(k)
        &&& forall|i: int|
            0 <= i < self.files.len() ==> self.entries@[#[trigger] self.files@[i].name@] == (
                self.files@[i].content@,
                self.files@[i].is_directory,
            )
        &&& forall|i: int|
            0 <= i < self.files.len() ==> #[trigger] self.files@[i].size
                == self.files@[i].content@.len()
        &&& self.current_directory@.len() > 0
        &&& self.current_directory@[0] == '/'
    }

    /// The paths are ordered and the entries are at the paths.
    pub proof fn lemma_wf(&self)
        requires
            self.wf(),
        ensures
            sorted_paths(self.paths()),
            forall|k: Seq<char>| #[trigger]
                self.entries().contains_key(k) <==> self.paths().contains(k),
            self.cwd().len() > 0 && self.cwd()[0] == '/',
    {
    }

    /// The path an argument names.
    fn normalize_path(&self, path: &str) -> (ret: String)
        requires
            self.wf(),
        ensures
            ret@ == normalize(self.cwd(), path@),
            ret@.len() > 0 && ret@[0] == '/',
    {
        proof {
            reveal_strlit("/");
        }
        if str_starts_with_char(path, '/') {
            String::from_str(path)
        } else {
            let cwd = self.current_directory.as_str();
            if cwd.unicode_len() == 1 && cwd.get_char(0) == '/' {
                assert(cwd@ =~= slash());
                String::from_str("/").concat(path)
            } else {
                assert(cwd@ != slash());
                String::from_str(cwd).concat("/").concat(path)
            }
        }
    }

    /// Where `p` is, or would go: the first position whose path is not
    /// before `p`, and whether the path there is `p`.
    fn locate(&self, p: &str) -> (ret: (usize, bool))
        requires
            self.wf(),
        ensures
            ret.0 <= self.files.len(),
            forall|j: int| 0 <= j < ret.0 ==> seq_lt(#[trigger] self.paths()[j], p@),
            ret.0 < self.files.len() ==> !seq_lt(self.paths()[ret.0 as int], p@),
            ret.1 == (ret.0 < self.files.len() && self.paths()[ret.0 as int] == p@),
            ret.1 == self.entries().contains_key(p@),
            ret.1 ==> self.entries()[p@] == (self.files@[ret.0 as int].content@, self.files@[ret.0 as int].is_directory),
    {
        let mut k: usize = 0;
        while k < self.files.len()
            invariant
                self.wf(),
                k <= self.files.len(),
                forall|j: int| 0 <= j < k ==> seq_lt(#[trigger] self.paths()[j], p@),
            ensures
                k <= self.files.len(),
                forall|j: int| 0 <= j < k ==> seq_lt(#[trigger] self.paths()[j], p@),
                k < self.files.len() ==> !seq_lt(self.paths()[k as int], p@),
            decreases self.files.len() - k,
        {
            if !str_lt(self.files[k].name.as_str(), p) {
                assert(self.paths()[k as int] == self.files@[k as int].name@);
                break;
            }
            k = k + 1;
        }
        let found = k < self.files.len() && str_eq(self.files[k].name.as_str(), p);
        proof {
            if self.entries().contains_key(p@) {
                assert(self.paths().contains(p@));
                let i = choose|i: int| 0 <= i < self.paths().len() && self.paths()[i] == p@;
                if i < k {
                    lemma_lt_irreflexive(p@, 0);
                } else if i > k {
                    assert(seq_lt(self.paths()[k as int], self.paths()[i]));
                }
                assert(found);
            }
            if found {
                assert(self.paths()[k as int] == self.files@[k as int].name@);
                assert(self.paths().contains(p@));
            }
        }
        (k, found)
    }

    /// Puts `file`, whose path is not taken, at position `k`.
    fn insert_at(&mut self, k: usize, file: File)
        requires
            old(self).wf(),
            k <= old(self).files.len(),
            forall|j: int| 0 <= j < k ==> seq_lt(#[trigger] old(self).paths()[j], file.name@),
            k < old(self).files.len() ==> !seq_lt(old(self).paths()[k as int], file.name@),
            !old(self).entries().contains_key(file.name@),
            file.size == file.content@.len(),
        ensures
            final(self).wf(),
            final(self).entries() == old(self).entries().insert(
                file.name@,
                (file.content@, file.is_directory),
            ),
            final(self).cwd() == old(self).cwd(),
    {
        let ghost p = file.name@;
        let ghost old_paths = self.paths();
        let ghost entry = (file.content@, file.is_directory);
        self.files.insert(k, file);
        proof {
            self.entries@ = self.entries@.insert(p, entry);
            assert(self.paths() =~= old_paths.insert(k as int, p));
            if k < old_paths.len() {
                assert(old_paths[k as int] != p) by {
                    assert(old(self).paths().contains(old_paths[k as int]));
                }
                lemma_lt_connex(old_paths[k as int], p);
            }
            assert forall|i: int, j: int| 0 <= i < j < self.paths().len() implies seq_lt(
                #[trigger] self.paths()[i],
                #[trigger] self.paths()[j],
            ) by {
                if j < k {
                } else if i < k && j == k {
                } else if i < k && j > k {
                    assert(seq_lt(old_paths[i], old_paths[j - 1]));
                } else if i == k {
                    if j - 1 > k {
                        lemma_lt_transitive(p, old_paths[k as int], old_paths[j - 1], 0);
                    }
                } else {
                }
            }
            assert forall|q: Seq<char>| #[trigger]
                self.entries@.contains_key(q) <==> self.paths().contains(q) by {
                if self.paths().contains(q) && q != p {
                    let i = choose|i: int| 0 <= i < self.paths().len() && self.paths()[i] == q;
                    if i < k {
                        assert(old_paths[i] == q);
                    } else {
                        assert(old_paths[i - 1] == q);
                    }
                }
                if self.entries@.contains_key(q) && q != p {
                    assert(old_paths.contains(q));
                    let i = choose|i: int| 0 <= i < old_paths.len() && old_paths[i] == q;
                    if i < k {
                        assert(self.paths()[i] == q);
                    } else {
                        assert(self.paths()[i + 1] == q);
                    }
                }
                if q == p {
                    assert(self.paths()[k as int] == p);
                }
            }
            assert forall|i: int| 0 <= i < self.files.len() implies self.entries@[
                #[trigger] self.files@[i].name@] == (
                self.files@[i].content@,
                self.files@[i].is_directory,
            ) by {
                if i < k {
                    assert(self.files@[i] == old(self).files@[i]);
                    assert(old_paths[i] != p);
                } else if i > k {
                    assert(self.files@[i] == old(self).files@[i - 1]);
                    assert(old_paths[i - 1] != p) by {
                        assert(old(self).paths().contains(old_paths[i - 1]));
                    }
                }
            }
            assert forall|i: int| 0 <= i < self.files.len() implies #[trigger] self.files@[i].size
                == self.files@[i].content@.len() by {
                if i < k {
                    assert(self.files@[i] == old(self).files@[i]);
                } else if i > k {
                    assert(self.files@[i] == old(self).files@[i - 1]);
                }
            }
        }
    }

    /// Creates an empty root directory and nothing else.
    fn empty() -> (ret: Self)
        ensures
            ret.wf(),
            ret.entries() == Map::<Seq<char>, FsEntry>::empty(),
            ret.cwd() == slash(),
    {
        proof {
            reveal_strlit("/");
        }
        let ret = FileSystem {
            files: Vec::new(),
            current_directory: String::from_str("/"),
            entries: Ghost(Map::empty()),
        };
        assert(ret.paths() =~= Seq::<Seq<char>>::empty());
        ret
    }

    /// A filesystem with the root directory, two files (/hello.txt and
    /// /readme.md) and the directories /bin, /etc, /home and /tmp, with
    /// the root as current directory.
    pub fn new() -> (ret: Self)
        ensures
            ret.wf(),
            ret.cwd() == slash(),
            ret.entries() == Map::<Seq<char>, FsEntry>::empty().insert(
                "/"@,
                (Seq::<u8>::empty(), true),
            ).insert("/hello.txt"@, ("Hello, RustixOS!".spec_bytes(), false)).insert(
                "/readme.md"@,
                ("# RustixOS\n\nA Rust-based operating system kernel.".spec_bytes(), false),
            ).insert("/bin"@, (Seq::<u8>::empty(), true)).insert(
                "/etc"@,
                (Seq::<u8>::empty(), true),
            ).insert("/home"@, (Seq::<u8>::empty(), true)).insert(
                "/tmp"@,
                (Seq::<u8>::empty(), true),
            ),
    {
        proof {
            reveal_strlit("/");
            reveal_strlit("/hello.txt");
            reveal_strlit("/readme.md");
            reveal_strlit("/bin");
            reveal_strlit("/etc");
            reveal_strlit("/home");
            reveal_strlit("/tmp");
        }
        let mut fs = FileSystem::empty();
        let (k, found) = fs.locate("/");
        fs.insert_at(k, File::new_directory(String::from_str("/")));
        assert("/bin"@[1] != "/etc"@[1] && "/bin"@[1] != "/tmp"@[1] && "/etc"@[1] != "/tmp"@[1]);
        assert("/hello.txt"@[1] != "/readme.md"@[1]);
        let _ = fs.create_file("/hello.txt", "Hello, RustixOS!".as_bytes_vec());
        let _ = fs.create_file(
            "/readme.md",
            "# RustixOS\n\nA Rust-based operating system kernel.".as_bytes_vec(),
        );
        let _ = fs.create_directory("/bin");
        let _ = fs.create_directory("/etc");
        let _ = fs.create_directory("/home");
        let _ = fs.create_directory("/tmp");
        fs
    }

    /// Creates a file at `path`; refused when the path is taken.
    pub fn create_file(&mut self, path: &str, content: Vec<u8>) -> (ret: Result<(), &'static str>)
        requires
            old(self).wf(),
        ensures
            final(self).wf(),
            final(self).cwd() == old(self).cwd(),
            match create_spec(
                old(self).entries(),
                normalize(old(self).cwd(), path@),
                (content@, false),
                "File already exists"@,
            ) {
                Ok(m) => ret is Ok && final(self).entries() == m,
                Err(msg) => (ret matches Err(e) && e@ == msg) && final(self).entries() == old(
                    self,
                ).entries(),
            },
    {
        let path = self.normalize_path(path);
        let (k, found) = self.locate(path.as_str());
        if found {
            return Err("File already exists");
        }
        let file = File::new_file(path, content);
        self.insert_at(k, file);
        Ok(())
    }

    /// Creates a directory at `path`; refused when the path is taken.
    pub fn create_directory(&mut self, path: &str) -> (ret: Result<(), &'static str>)
        requires
            old(self).wf(),
        ensures
            final(self).wf(),
            final(self).cwd() == old(self).cwd(),
            match create_spec(
                old(self).entries(),
                normalize(old(self).cwd(), path@),
                (Seq::<u8>::empty(), true),
                "Directory already exists"@,
            ) {
                Ok(m) => ret is Ok && final(self).entries() == m,
                Err(msg) => (ret matches Err(e) && e@ == msg) && final(self).entries() == old(
                    self,
                ).entries(),
            },
    {
        let path = self.normalize_path(path);
        let (k, found) = self.locate(path.as_str());
        if found {
            return Err("Directory already exists");
        }
        let dir = File::new_directory(path);
        self.insert_at(k, dir);
        Ok(())
    }

    /// The content of the file at `path`.
    pub fn read_file(&self, path: &str) -> (ret: Result<&Vec<u8>, &'static str>)
        requires
            self.wf(),
        ensures
            match read_spec(self.entries(), normalize(self.cwd(), path@)) {
                Ok(c) => ret matches Ok(v) && v@ == c,
                Err(msg) => ret matches Err(e) && e@ == msg,
            },
    {
        let path = self.normalize_path(path);
        let (k, found) = self.locate(path.as_str());
        if !found {
            return Err("File not found");
        }
        if self.files[k].is_directory {
            return Err("Path is a directory");
        }
        Ok(&self.files[k].content)
    }

    /// Replaces the content of the file at `path`, creating it when
    /// missing; refused for a directory.
    pub fn write_file(&mut self, path: &str, content: Vec<u8>) -> (ret: Result<(), &'static str>)
        requires
            old(self).wf(),
        ensures
            final(self).wf(),
            final(self).cwd() == old(self).cwd(),
            match write_spec(old(self).entries(), normalize(old(self).cwd(), path@), content@) {
                Ok(m) => ret is Ok && final(self).entries() == m,
                Err(msg) => (ret matches Err(e) && e@ == msg) && final(self).entries() == old(
                    self,
                ).entries(),
            },
    {
        let path = self.normalize_path(path);
        let (k, found) = self.locate(path.as_str());
        if found {
            if self.files[k].is_directory {
                return Err("Path is a directory");
            }
            let name = self.files[k].name.clone();
            let size = content.len();
            let ghost old_paths = self.paths();
            let ghost p = path@;
            let file = File { name, content, size, is_directory: false };
            self.files.set(k, file);
            proof {
                self.entries@ = self.entries@.insert(p, (file.content@, false));
                assert(self.paths() =~= old_paths);
                assert forall|i: int| 0 <= i < self.files.len() implies self.entries@[
                    #[trigger] self.files@[i].name@] == (
                    self.files@[i].content@,
                    self.files@[i].is_directory,
                ) by {
                    if i != k {
                        assert(self.files@[i] == old(self).files@[i]);
                        assert(old_paths[i] != old_paths[k as int]) by {
                            if i < k {
                                lemma_lt_irreflexive(old_paths[i], 0);
                            } else {
                                lemma_lt_irreflexive(old_paths[i], 0);
                            }
                        }
                    }
                }
                assert forall|i: int| 0 <= i < self.files.len() implies #[trigger] self.files@[i].size
                    == self.files@[i].content@.len() by {
                    if i != k {
                        assert(self.files@[i] == old(self).files@[i]);
                    }
                }
            }
            return Ok(());
        }
        self.create_file(path.as_str(), content)
    }

    /// Removes the file or directory at `path`.
    pub fn delete_file(&mut self, path: &str) -> (ret: Result<(), &'static str>)
        requires
            old(self).wf(),
        ensures
            final(self).wf(),
            final(self).cwd() == old(self).cwd(),
            match delete_spec(old(self).entries(), normalize(old(self).cwd(), path@)) {
                Ok(m) => ret is Ok && final(self).entries() == m,
                Err(msg) => (ret matches Err(e) && e@ == msg) && final(self).entries() == old(
                    self,
                ).entries(),
            },
    {
        let path = self.normalize_path(path);
        let (k, found) = self.locate(path.as_str());
        if !found {
            return Err("File not found");
        }
        let ghost old_paths = self.paths();
        let ghost p = path@;
        let removed = self.files.remove(k);
        proof {
            self.entries@ = self.entries@.remove(p);
            assert(self.paths() =~= old_paths.remove(k as int));
            assert forall|i: int, j: int| 0 <= i < j < self.paths().len() implies seq_lt(
                #[trigger] self.paths()[i],
                #[trigger] self.paths()[j],
            ) by {
                if i < k && j >= k {
                    assert(self.paths()[j] == old_paths[j + 1]);
                } else if i >= k {
                    assert(self.paths()[i] == old_paths[i + 1]);
                    assert(self.paths()[j] == old_paths[j + 1]);
                }
            }
            assert forall|i: int| 0 <= i < old_paths.len() && i != k implies old_paths[i] != p by {
                if i < k {
                    lemma_lt_irreflexive(old_paths[i], 0);
                } else {
                    lemma_lt_irreflexive(old_paths[k as int], 0);
                }
            }
            assert forall|q: Seq<char>| #[trigger]
                self.entries@.contains_key(q) <==> self.paths().contains(q) by {
                if self.paths().contains(q) {
                    let i = choose|i: int| 0 <= i < self.paths().len() && self.paths()[i] == q;
                    if i < k {
                        assert(old_paths[i] == q);
                    } else {
                        assert(old_paths[i + 1] == q);
                    }
                    assert(old_paths.contains(q));
                }
                if self.entries@.contains_key(q) {
                    assert(old_paths.contains(q));
                    let i = choose|i: int| 0 <= i < old_paths.len() && old_paths[i] == q;
                    if i < k {
                        assert(self.paths()[i] == q);
                    } else {
                        assert(self.paths()[i - 1] == q);
                    }
                }
            }
            assert forall|i: int| 0 <= i < self.files.len() implies self.entries@[
                #[trigger] self.files@[i].name@] == (
                self.files@[i].content@,
                self.files@[i].is_directory,
            ) by {
                if i < k {
                    assert(self.files@[i] == old(self).files@[i]);
                    assert(old_paths[i] != p);
                } else {
                    assert(self.files@[i] == old(self).files@[i + 1]);
                    assert(old_paths[i + 1] != p);
                }
            }
            assert forall|i: int| 0 <= i < self.files.len() implies #[trigger] self.files@[i].size
                == self.files@[i].content@.len() by {
                if i < k {
                    assert(self.files@[i] == old(self).files@[i]);
                } else {
                    assert(self.files@[i] == old(self).files@[i + 1]);
                }
            }
        }
        Ok(())
    }

    /// The names of the entries directly inside the directory at `path`,
    /// in path order.
    pub fn list_directory(&self, path: &str) -> (ret: Result<Vec<String>, &'static str>)
        requires
            self.wf(),
        ensures
            match list_spec(self.entries(), self.paths(), normalize(self.cwd(), path@)) {
                Ok(names) => ret matches Ok(v) && v@.map_values(|s: String| s@) == names,
                Err(msg) => ret matches Err(e) && e@ == msg,
            },
    {
        let path = self.normalize_path(path);
        let (k, found) = self.locate(path.as_str());
        if !found {
            return Err("Directory not found");
        }
        if !self.files[k].is_directory {
            return Err("Path is not a directory");
        }
        proof {
            reveal_strlit("/");
        }
        let is_root = str_eq(path.as_str(), "/");
        assert("/"@ =~= slash());
        let prefix = if is_root {
            String::from_str("/")
        } else {
            path.clone().concat("/")
        };
        assert(prefix@ == dir_prefix(path@));
        let plen = prefix.as_str().unicode_len();
        let mut entries: Vec<String> = Vec::new();
        let mut i: usize = 0;
        while i < self.files.len()
            invariant
                self.wf(),
                i <= self.files.len(),
                prefix@ == dir_prefix(path@),
                plen == prefix@.len(),
                entries@.map_values(|s: String| s@) == dir_listing(
                    self.paths().subrange(0, i as int),
                    path@,
                ),
            decreases self.files.len() - i,
        {
            let file_path = self.files[i].name.as_str();
            proof {
                assert(self.paths().subrange(0, i + 1).drop_last() =~= self.paths().subrange(0, i as int));
                assert(self.paths().subrange(0, i + 1).last() == file_path@);
            }
            if str_starts_with(file_path, prefix.as_str()) && !str_eq(file_path, path.as_str()) {
                let relative_path = file_path.substring_char(plen, file_path.unicode_len());
                if !str_contains_char(relative_path, '/') {
                    let ghost before = entries@;
                    entries.push(String::from_str(relative_path));
                    assert(entries@.map_values(|s: String| s@) =~= before.map_values(|s: String| s@).push(
                        relative_path@,
                    ));
                }
            }
            i = i + 1;
        }
        assert(self.paths().subrange(0, self.files.len() as int) =~= self.paths());
        Ok(entries)
    }

    /// Makes the directory at `path` the current directory.
    pub fn change_directory(&mut self, path: &str) -> (ret: Result<(), &'static str>)
        requires
            old(self).wf(),
        ensures
            final(self).wf(),
            final(self).entries() == old(self).entries(),
            final(self).paths() == old(self).paths(),
            match change_dir_spec(old(self).entries(), normalize(old(self).cwd(), path@)) {
                Ok(d) => ret is Ok && final(self).cwd() == d,
                Err(msg) => (ret matches Err(e) && e@ == msg) && final(self).cwd() == old(self).cwd(),
            },
    {
        let path = self.normalize_path(path);
        let (k, found) = self.locate(path.as_str());
        if !found {
            return Err("Directory not found");
        }
        if !self.files[k].is_directory {
            return Err("Path is not a directory");
        }
        self.current_directory = path;
        Ok(())
    }

    pub fn get_current_directory(&self) -> (ret: &str)
        ensures
            ret@ == self.cwd(),
    {
        self.current_directory.as_str()
    }

    /// Whether anything is at `path`.
    pub fn file_exists(&self, path: &str) -> (ret: bool)
        requires
            self.wf(),
        ensures
            ret == self.entries().contains_key(normalize(self.cwd(), path@)),
    {
        let path = self.normalize_path(path);
        let (k, found) = self.locate(path.as_str());
        found
    }

    /// Whether a directory is at `path`.
    pub fn is_directory(&self, path: &str) -> (ret: bool)
        requires
            self.wf(),
        ensures
            ret == (self.entries().contains_key(normalize(self.cwd(), path@)) && self.entries()[normalize(
                self.cwd(),
                path@,
            )].1),
    {
        let path = self.normalize_path(path);
        let (k, found) = self.locate(path.as_str());
        if found {
            self.files[k].is_directory
        } else {
            false
        }
    }
}


/// A path made absolute stays as it is when made absolute again.
pub proof fn lemma_normalize_idempotent(cwd: Seq<char>, path: Seq<char>)
    requires
        cwd.len() > 0,
        cwd[0] == '/',
    ensures
        normalize(cwd, normalize(cwd, path)) == normalize(cwd, path),
        normalize(cwd, path).len() > 0 && normalize(cwd, path)[0] == '/',
{
    if !(path.len() > 0 && path[0] == '/') {
        if cwd == slash() {
            assert((slash() + path)[0] == '/');
        } else {
            assert((cwd + slash() + path)[0] == cwd[0]);
        }
    }
}

/// Reading a path after a write that succeeded gives back what was
/// written, and the write touches no other path.
pub proof fn lemma_read_after_write(m: Map<Seq<char>, FsEntry>, p: Seq<char>, c: Seq<u8>, q: Seq<char>)
    requires
        write_spec(m, p, c) is Ok,
    ensures
        read_spec(write_spec(m, p, c)->Ok_0, p) == Ok::<Seq<u8>, Seq<char>>(c),
        q != p ==> read_spec(write_spec(m, p, c)->Ok_0, q) == read_spec(m, q),
{
}

/// A write is refused exactly on a directory, and then changes nothing.
pub proof fn lemma_write_refused(m: Map<Seq<char>, FsEntry>, p: Seq<char>, c: Seq<u8>)
    ensures
        write_spec(m, p, c) is Err <==> (m.contains_key(p) && m[p].1),
{
}

/// Reading a file right after creating it gives its content, and a second
/// creation at the same path is refused.
pub proof fn lemma_create_then_read(m: Map<Seq<char>, FsEntry>, p: Seq<char>, c: Seq<u8>)
    requires
        !m.contains_key(p),
    ensures
        create_spec(m, p, (c, false), "File already exists"@) is Ok,
        read_spec(create_spec(m, p, (c, false), "File already exists"@)->Ok_0, p) == Ok::<
            Seq<u8>,
            Seq<char>,
        >(c),
        create_spec(
            create_spec(m, p, (c, false), "File already exists"@)->Ok_0,
            p,
            (c, false),
            "File already exists"@,
        ) == Err::<Map<Seq<char>, FsEntry>, Seq<char>>("File already exists"@),
{
}

/// Deleting what was just created gives back the filesystem from before.
pub proof fn lemma_delete_undoes_create(m: Map<Seq<char>, FsEntry>, p: Seq<char>, e: FsEntry, msg: Seq<char>)
    requires
        !m.contains_key(p),
    ensures
        delete_spec(create_spec(m, p, e, msg)->Ok_0, p) == Ok::<Map<Seq<char>, FsEntry>, Seq<char>>(m),
{
    assert(m.insert(p, e).remove(p) =~= m);
}

/// After a path is deleted, reading it finds nothing.
pub proof fn lemma_read_after_delete(m: Map<Seq<char>, FsEntry>, p: Seq<char>)
    requires
        delete_spec(m, p) is Ok,
    ensures
        read_spec(delete_spec(m, p)->Ok_0, p) == Err::<Seq<u8>, Seq<char>>("File not found"@),
{
}

/// Changing into a directory that was just created makes it the current
/// directory.
pub proof fn lemma_change_into_created(m: Map<Seq<char>, FsEntry>, p: Seq<char>)
    requires
        !m.contains_key(p),
    ensures
        change_dir_spec(
            create_spec(m, p, (Seq::<u8>::empty(), true), "Directory already exists"@)->Ok_0,
            p,
        ) == Ok::<Seq<char>, Seq<char>>(p),
{
}

/// A node of the virtual filesystem: bytes read and written at an offset.
pub trait VfsNode {
    fn read(&self, offset: usize, buffer: &mut [u8]) -> Result<usize, &'static str>;

    fn write(&mut self, offset: usize, buffer: &[u8]) -> Result<usize, &'static str>
        requires
            offset + buffer@.len() <= usize::MAX,
    ;

    fn get_size(&self) -> usize;

    fn is_directory(&self) -> bool;
}

/// The content after writing `data` at `offset`: zeros fill any gap past
/// the old end.
pub open spec fn written(content: Seq<u8>, offset: int, data: Seq<u8>) -> Seq<u8> {
    let len = if offset + data.len() > content.len() { offset + data.len() } else { content.len() as int };
    Seq::new(
        len as nat,
        |i: int|
            if offset <= i < offset + data.len() {
                data[i - offset]
            } else if i < content.len() {
                content[i]
            } else {
                0u8
            },
    )
}

/// How many bytes a read at `offset` into a buffer of `buf_len` bytes
/// copies.
pub open spec fn read_count(content_len: int, offset: int, buf_len: int) -> int {
    if offset >= content_len {
        0
    } else if offset + buf_len < content_len {
        buf_len
    } else {
        content_len - offset
    }
}

impl VfsNode for File {
    /// Copies the bytes from `offset` on into the front of `buffer`.
    fn read(&self, offset: usize, buffer: &mut [u8]) -> (ret: Result<usize, &'static str>)
        ensures
            self.is_directory ==> (ret matches Err(e) && e@ == "Cannot read from directory"@)
                && final(buffer)@ == old(buffer)@,
            !self.is_directory ==> {
                let n = read_count(self.content@.len() as int, offset as int, old(buffer)@.len() as int);
                &&& ret == Ok::<usize, &'static str>(n as usize)
                &&& final(buffer)@.len() == old(buffer)@.len()
                &&& forall|j: int| 0 <= j < n ==> #[trigger] final(buffer)@[j] == self.content@[offset + j]
                &&& forall|j: int| n <= j < old(buffer)@.len() ==> #[trigger] final(buffer)@[j] == old(buffer)@[j]
            },
    {
        if self.is_directory {
            return Err("Cannot read from directory");
        }
        let len = self.content.len();
        if offset >= len {
            return Ok(0);
        }
        let bytes_to_read = if buffer.len() < len - offset {
            buffer.len()
        } else {
            len - offset
        };
        let mut i: usize = 0;
        while i < bytes_to_read
            invariant
                i <= bytes_to_read,
                bytes_to_read <= buffer@.len(),
                buffer@.len() == old(buffer)@.len(),
                offset + bytes_to_read <= len,
                len == self.content@.len(),
                forall|j: int| 0 <= j < i ==> buffer@[j] == self.content@[offset + j],
                forall|j: int| i <= j < buffer@.len() ==> buffer@[j] == old(buffer)@[j],
            decreases bytes_to_read - i,
        {
            buffer[i] = self.content[offset + i];
            i = i + 1;
        }
        Ok(bytes_to_read)
    }

    /// Writes `buffer` at `offset`, growing the content with zeros as
    /// needed.
    fn write(&mut self, offset: usize, buffer: &[u8]) -> (ret: Result<usize, &'static str>)
        ensures
            old(self).is_directory ==> (ret matches Err(e) && e@ == "Cannot write to directory"@)
                && *final(self) == *old(self),
            !old(self).is_directory ==> {
                &&& ret == Ok::<usize, &'static str>(buffer@.len() as usize)
                &&& final(self).content@ == written(old(self).content@, offset as int, buffer@)
                &&& final(self).size == final(self).content@.len()
                &&& final(self).name == old(self).name
                &&& !final(self).is_directory
            },
    {
        if self.is_directory {
            return Err("Cannot write to directory");
        }
        let n = buffer.len();
        let ghost before = self.content@;
        if offset + n > self.content.len() {
            self.content.resize(offset + n, 0);
        }
        let ghost grown = self.content@;
        assert(forall|j: int| 0 <= j < before.len() ==> grown[j] == before[j]) by {
            if offset + n > before.len() {
                assert forall|j: int| 0 <= j < before.len() implies grown[j] == before[j] by {
                    assert(grown.subrange(0, before.len() as int)[j] == grown[j]);
                }
            }
        }
        let mut i: usize = 0;
        while i < n
            invariant
                i <= n,
                n == buffer@.len(),
                offset + n <= self.content.len(),
                self.name == old(self).name,
                !self.is_directory,
                self.content@.len() == grown.len(),
                forall|j: int| 0 <= j < i ==> self.content@[offset + j] == buffer@[j],
                forall|j: int|
                    0 <= j < self.content@.len() && !(offset <= j < offset + i) ==> self.content@[j]
                        == grown[j],
            decreases n - i,
        {
            self.content.set(offset + i, buffer[i]);
            i = i + 1;
        }
        self.size = self.content.len();
        proof {
            let w = written(old(self).content@, offset as int, buffer@);
            assert(grown.len() == w.len());
            assert forall|j: int| 0 <= j < w.len() implies self.content@[j] == w[j] by {
                if offset <= j < offset + n {
                    assert(self.content@[offset + (j - offset)] == buffer@[j - offset]);
                } else if j < before.len() {
                    assert(self.content@[j] == grown[j]);
                } else {
                    assert(self.content@[j] == grown[j]);
                    assert(cloned::<u8>(0u8, grown[j]));
                }
            }
            assert(self.content@ =~= w);
        }
        Ok(n)
    }

    fn get_size(&self) -> (ret: usize)
        ensures
            ret == self.size,
    {
        self.size
    }

    fn is_directory(&self) -> (ret: bool)
        ensures
            ret == self.is_directory,
    {
        self.is_directory
    }
}

} // verus!
