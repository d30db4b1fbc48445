//! The read-only workspace file system: inode numbering, file attributes,
//! directory listings and reads, as decisions on facts that the mount loop
//! gathers from disk.

use vstd::prelude::*;
use std::collections::HashMap;
use crate::paths::{join_relative, join_relative_path};
use crate::text::{str_chars, chars_to_string, chars_eq};

verus! {

broadcast use vstd::std_specs::hash::group_hash_axioms;

/// The kind of a file system entry.
#[derive(Debug, Clone, Copy, PartialEq, Eq, Structural)]
pub enum FileKind {
    Directory,
    RegularFile,
    Symlink,
}

/// A point in time as seconds and nanoseconds since the Unix epoch.
#[derive(Debug, Clone, Copy, PartialEq, Eq, Structural)]
pub struct Timestamp {
    pub secs: u64,
    pub nanos: u32,
}

/// What the file system reports of a file on disk (times before the epoch,
/// or missing, read as the epoch).
#[derive(Debug, Clone, Copy, PartialEq, Eq, Structural)]
pub struct FileFacts {
    pub is_dir: bool,
    pub is_file: bool,
    pub is_symlink: bool,
    pub len: u64,
    pub accessed: Timestamp,
    pub modified: Timestamp,
    pub created: Timestamp,
}

/// The attributes served for an inode.
#[derive(Debug, Clone, Copy, PartialEq, Eq, Structural)]
pub struct FileAttributes {
    pub ino: u64,
    pub size: u64,
    pub blocks: u64,
    pub atime: Timestamp,
    pub mtime: Timestamp,
    pub ctime: Timestamp,
    pub crtime: Timestamp,
    pub kind: FileKind,
    pub perm: u16,
    pub nlink: u32,
    pub uid: u32,
    pub gid: u32,
    pub rdev: u32,
    pub flags: u32,
    pub blksize: u32,
}

/// The kind of an entry: a directory, a file, a link; anything else is
/// served as a file.
pub open spec fn kind_of(is_dir: bool, is_file: bool, is_symlink: bool) -> FileKind {
    if is_dir {
        FileKind::Directory
    } else if is_file {
        FileKind::RegularFile
    } else if is_symlink {
        FileKind::Symlink
    } else {
        FileKind::RegularFile
    }
}

/// Decides the kind of an entry.
pub fn entry_kind(is_dir: bool, is_file: bool, is_symlink: bool) -> (k: FileKind)
    ensures
        k == kind_of(is_dir, is_file, is_symlink),
{
    if is_dir {
        FileKind::Directory
    } else if is_file {
        FileKind::RegularFile
    } else if is_symlink {
        FileKind::Symlink
    } else {
        FileKind::RegularFile
    }
}

/// The attributes of a file: its size in 512-byte blocks rounded up, its
/// times (the creation time is the change time), read and execute rights for
/// directories and read rights for files, owned by user and group 1000.
pub open spec fn attributes_of(f: FileFacts, ino: u64) -> FileAttributes {
    FileAttributes {
        ino,
        size: f.len,
        blocks: ((f.len + 511) / 512) as u64,
        atime: f.accessed,
        mtime: f.modified,
        ctime: f.created,
        crtime: f.created,
        kind: kind_of(f.is_dir, f.is_file, f.is_symlink),
        perm: if f.is_dir { 0o755 } else { 0o644 },
        nlink: 1,
        uid: 1000,
        gid: 1000,
        rdev: 0,
        flags: 0,
        blksize: 4096,
    }
}

/// What a listing of a directory reports of one entry; `None` for an entry
/// that could not be read or has no file name.
#[derive(Debug, Clone)]
pub struct DirEntryFacts {
    pub path: String,
    pub name: String,
    pub kind: FileKind,
}

/// The workspace file system: the inode of every path it has handed out, and
/// the attributes it has served.
#[derive(Debug)]
pub struct CodeflowFS {
    workspace_path: String,
    attr_cache: HashMap<u64, FileAttributes>,
    next_inode: u64,
    /// The path of inode `k + 1` is `paths[k]`; inode 1 is the workspace.
    paths: Vec<String>,
}

impl CodeflowFS {
    /// The paths by inode: inode `k + 1` has path `k`.
    pub closed spec fn inode_paths(&self) -> Seq<Seq<char>> {
        self.paths@.map_values(|s: String| s@)
    }

    /// The attributes served so far, by inode.
    pub closed spec fn cache(&self) -> Map<u64, FileAttributes> {
        self.attr_cache@
    }

    /// The next inode to hand out.
    pub closed spec fn next(&self) -> u64 {
        self.next_inode
    }

    /// The workspace the file system serves.
    pub closed spec fn workspace(&self) -> Seq<char> {
        self.workspace_path@
    }

    /// Inode numbers run from 1 up without gaps, each path has one, and
    /// inode 1 is the workspace.
    pub open spec fn wf(&self) -> bool {
        &&& self.inode_paths().len() >= 1
        &&& self.next() == self.inode_paths().len() + 1
        &&& self.inode_paths().no_duplicates()
        &&& self.inode_paths()[0] == self.workspace()
    }

    /// The inode of `path`, if it has one.
    pub open spec fn inode_of_spec(&self, path: Seq<char>) -> Option<u64> {
        if self.inode_paths().contains(path) {
            Some((self.inode_paths().index_of(path) + 1) as u64)
        } else {
            None
        }
    }

    /// The path of inode `ino`, if it has been handed out.
    pub open spec fn path_of_spec(&self, ino: u64) -> Option<Seq<char>> {
        if 1 <= ino <= self.inode_paths().len() {
            Some(self.inode_paths()[ino - 1])
        } else {
            None
        }
    }

    /// A file system over the workspace at `workspace_path`: the workspace is
    /// inode 1 and the next inode is 2.
    pub fn new(workspace_path: &str) -> (r: Self)
        ensures
            r.wf(),
            r.workspace() == workspace_path@,
            r.inode_paths() == seq![workspace_path@],
            r.next() == 2,
            r.cache() == Map::<u64, FileAttributes>::empty(),
    {
        let mut paths: Vec<String> = Vec::new();
        paths.push(chars_to_string(&str_chars(workspace_path)));
        let r = CodeflowFS {
            workspace_path: chars_to_string(&str_chars(workspace_path)),
            attr_cache: HashMap::new(),
            next_inode: 2,
            paths,
        };
        assert(r.inode_paths() =~= seq![workspace_path@]);
        r
    }

    /// The workspace path.
    pub fn workspace_path(&self) -> (r: String)
        ensures
            r@ == self.workspace(),
    {
        chars_to_string(&str_chars(self.workspace_path.as_str()))
    }

    /// The next inode to be handed out.
    pub fn next_inode(&self) -> (r: u64)
        ensures
            r == self.next(),
    {
        self.next_inode
    }

    /// The inode of `path`, if one has been handed out for it.
    pub fn inode_of(&self, path: &str) -> (r: Option<u64>)
        requires
            self.wf(),
        ensures
            r == self.inode_of_spec(path@),
    {
        let p = str_chars(path);
        let ghost ps = self.inode_paths();
        let mut i: usize = 0;
        while i < self.paths.len()
            invariant
                i <= self.paths@.len(),
                ps == self.inode_paths(),
                self.wf(),
                p@ == path@,
                forall|k: int| 0 <= k < i ==> ps[k] != path@,
            decreases self.paths@.len() - i,
        {
            let q = str_chars(self.paths[i].as_str());
            assert(ps[i as int] == self.paths@[i as int]@);
            if chars_eq(&q, &p) {
                proof {
                    assert(ps.contains(path@));
                    let k = ps.index_of(path@);
                    assert(0 <= k < ps.len() && ps[k] == path@);
                    assert(k == i);
                }
                return Some((i + 1) as u64);
            }
            i = i + 1;
        }
        proof {
            if ps.contains(path@) {
                let k = choose|k: int| 0 <= k < ps.len() && ps[k] == path@;
                assert(ps[k] != path@);
            }
        }
        None
    }

    /// The path of inode `ino`, if it has been handed out.
    pub fn inode_path(&self, ino: u64) -> (r: Option<String>)
        requires
            self.wf(),
        ensures
            match r {
                Some(p) => self.path_of_spec(ino) == Some(p@),
                None => self.path_of_spec(ino) is None,
            },
    {
        if ino >= 1 && ino - 1 < self.paths.len() as u64 {
            let k = (ino - 1) as usize;
            assert(self.inode_paths()[k as int] == self.paths@[k as int]@);
            Some(chars_to_string(&str_chars(self.paths[k].as_str())))
        } else {
            None
        }
    }
}


/// What `get_or_assign_inode` makes of the path table: a new path goes last.
pub open spec fn with_path(paths: Seq<Seq<char>>, path: Seq<char>) -> Seq<Seq<char>> {
    if paths.contains(path) {
        paths
    } else {
        paths.push(path)
    }
}

impl CodeflowFS {
    /// The inode of `path`, handing out the next one when it has none.
    pub fn get_or_assign_inode(&mut self, path: &str) -> (ino: u64)
        requires
            old(self).wf(),
            old(self).next() < u64::MAX,
        ensures
            final(self).wf(),
            final(self).inode_paths() == with_path(old(self).inode_paths(), path@),
            final(self).workspace() == old(self).workspace(),
            final(self).cache() == old(self).cache(),
            old(self).inode_of_spec(path@) matches Some(i) ==> ino == i && final(self).next() == old(self).next(),
            old(self).inode_of_spec(path@) is None ==> ino == old(self).next() && final(self).next() == old(self).next() + 1,
            final(self).inode_of_spec(path@) == Some(ino),
            final(self).path_of_spec(ino) == Some(path@),
    {
        match self.inode_of(path) {
            Some(i) => {
                proof {
                    let ps = self.inode_paths();
                    let k = ps.index_of(path@);
                    assert(0 <= k < ps.len() && ps[k] == path@);
                }
                i
            },
            None => {
                let ghost o = self.inode_paths();
                let ino = self.next_inode;
                self.next_inode = self.next_inode + 1;
                self.paths.push(chars_to_string(&str_chars(path)));
                proof {
                    let ps = self.inode_paths();
                    assert(ps =~= o.push(path@));
                    assert forall|i: int, j: int| 0 <= i < j < ps.len() implies ps[i] != ps[j] by {
                        if j == o.len() {
                            assert(o.contains(o[i]));
                        }
                    }
                    assert(ps[o.len() as int] == path@);
                    assert(ps.contains(path@));
                    let k = ps.index_of(path@);
                    assert(0 <= k < ps.len() && ps[k] == path@);
                    assert(k == o.len());
                }
                ino
            },
        }
    }

    /// The attributes served for a file with inode `ino`.
    pub fn metadata_to_attr(&self, facts: &FileFacts, ino: u64) -> (a: FileAttributes)
        requires
            facts.len + 511 <= u64::MAX,
        ensures
            a == attributes_of(*facts, ino),
    {
        FileAttributes {
            ino,
            size: facts.len,
            blocks: (facts.len + 511) / 512,
            atime: facts.accessed,
            mtime: facts.modified,
            ctime: facts.created,
            crtime: facts.created,
            kind: entry_kind(facts.is_dir, facts.is_file, facts.is_symlink),
            perm: if facts.is_dir { 0o755 } else { 0o644 },
            nlink: 1,
            uid: 1000,
            gid: 1000,
            rdev: 0,
            flags: 0,
            blksize: 4096,
        }
    }

    /// The path of entry `name` in the directory with inode `parent`, if the
    /// parent has been handed out.
    pub fn resolve_path(&self, parent: u64, name: &str) -> (r: Option<String>)
        requires
            self.wf(),
        ensures
            match self.path_of_spec(parent) {
                Some(p) => r matches Some(s) && s@ == join_relative(p, name@),
                None => r is None,
            },
    {
        match self.inode_path(parent) {
            Some(p) => Some(join_relative_path(p.as_str(), name)),
            None => None,
        }
    }

    /// A successful lookup of `path`: the path gets its inode, and its
    /// attributes are cached and served.
    pub fn record_lookup(&mut self, path: &str, facts: &FileFacts) -> (a: FileAttributes)
        requires
            old(self).wf(),
            old(self).next() < u64::MAX,
            facts.len + 511 <= u64::MAX,
        ensures
            final(self).wf(),
            final(self).inode_paths() == with_path(old(self).inode_paths(), path@),
            final(self).inode_of_spec(path@) == Some(a.ino),
            a == attributes_of(*facts, a.ino),
            final(self).cache() == old(self).cache().insert(a.ino, a),
    {
        let ino = self.get_or_assign_inode(path);
        let a = self.metadata_to_attr(facts, ino);
        self.attr_cache.insert(ino, a);
        a
    }

    /// The attributes cached for `ino`, if any.
    pub fn cached_attr(&self, ino: u64) -> (r: Option<FileAttributes>)
        ensures
            match r {
                Some(a) => self.cache().contains_key(ino) && self.cache()[ino] == a,
                None => !self.cache().contains_key(ino),
            },
    {
        match self.attr_cache.get(&ino) {
            Some(a) => Some(*a),
            None => None,
        }
    }

    /// Attributes read from disk for an inode that was not cached: they are
    /// cached and served.
    pub fn record_attr(&mut self, ino: u64, facts: &FileFacts) -> (a: FileAttributes)
        requires
            facts.len + 511 <= u64::MAX,
        ensures
            a == attributes_of(*facts, ino),
            final(self).cache() == old(self).cache().insert(ino, a),
            final(self).inode_paths() == old(self).inode_paths(),
            final(self).next() == old(self).next(),
            final(self).workspace() == old(self).workspace(),
    {
        let a = self.metadata_to_attr(facts, ino);
        self.attr_cache.insert(ino, a);
        a
    }
}


/// An entry of a listing as (path, name, kind); `None` for an entry that is
/// skipped.
pub open spec fn entry_view(e: Option<DirEntryFacts>) -> Option<(Seq<char>, Seq<char>, FileKind)> {
    match e {
        Some(f) => Some((f.path@, f.name@, f.kind)),
        None => None,
    }
}

/// The child entries listed from the first `n` entries of a directory, those
/// before index `skip` left out, with the path table after each listed child
/// has its inode.
pub open spec fn list_children(
    paths: Seq<Seq<char>>,
    entries: Seq<Option<(Seq<char>, Seq<char>, FileKind)>>,
    skip: i64,
    n: int,
) -> (Seq<Seq<char>>, Seq<(u64, FileKind, Seq<char>)>)
    decreases n,
{
    if n <= 0 {
        (paths, Seq::empty())
    } else {
        let (ps, out) = list_children(paths, entries, skip, n - 1);
        if ((n - 1) as i64) < skip {
            (ps, out)
        } else {
            match entries[n - 1] {
                None => (ps, out),
                Some((path, name, kind)) => {
                    let ps2 = with_path(ps, path);
                    (ps2, out.push(((ps2.index_of(path) + 1) as u64, kind, name)))
                },
            }
        }
    }
}

/// `.` (from offset 0) and `..` (from offset 1, always inode 1) of directory
/// `ino`.
pub open spec fn dot_entries(ino: u64, offset: i64) -> Seq<(u64, FileKind, Seq<char>)> {
    let first = if offset == 0 { seq![(ino, FileKind::Directory, "."@)] } else { Seq::empty() };
    let second = if offset <= 1 { seq![(1u64, FileKind::Directory, ".."@)] } else { Seq::empty() };
    first + second
}

/// `offset - 2`, held at the least `i64`.
pub open spec fn child_skip(offset: i64) -> i64 {
    if offset < i64::MIN + 2 {
        i64::MIN
    } else {
        (offset - 2) as i64
    }
}

proof fn lemma_list_children_grows(
    paths: Seq<Seq<char>>,
    entries: Seq<Option<(Seq<char>, Seq<char>, FileKind)>>,
    skip: i64,
    n: int,
)
    requires
        0 <= n,
    ensures
        list_children(paths, entries, skip, n).0.len() <= paths.len() + n,
        paths.len() <= list_children(paths, entries, skip, n).0.len(),
    decreases n,
{
    if n > 0 {
        lemma_list_children_grows(paths, entries, skip, n - 1);
    }
}

impl CodeflowFS {
    /// The listing of directory `ino` from `offset` on, given its entries as
    /// read from disk: `.` and `..` as the offset asks, then every readable
    /// entry from index `offset - 2` on with its inode (a new path gets the
    /// next inode). The n-th listed entry has offset n + 1.
    pub fn list_directory(&mut self, ino: u64, offset: i64, entries: &Vec<Option<DirEntryFacts>>)
        -> (r: Vec<(u64, FileKind, String)>)
        requires
            old(self).wf(),
            old(self).next() + entries@.len() < u64::MAX,
        ensures
            final(self).wf(),
            ({
                let (ps, out) = list_children(old(self).inode_paths(), entries@.map_values(|e: Option<DirEntryFacts>| entry_view(e)),
                    child_skip(offset), entries@.len() as int);
                &&& final(self).inode_paths() == ps
                &&& r@.map_values(|t: (u64, FileKind, String)| (t.0, t.1, t.2@)) == dot_entries(ino, offset) + out
            }),
            final(self).cache() == old(self).cache(),
            final(self).workspace() == old(self).workspace(),
    {
        let ghost ev = entries@.map_values(|e: Option<DirEntryFacts>| entry_view(e));
        let ghost p0 = self.inode_paths();
        let mut out: Vec<(u64, FileKind, String)> = Vec::new();
        if offset == 0 {
            out.push((ino, FileKind::Directory, chars_to_string(&str_chars("."))));
        }
        if offset <= 1 {
            out.push((1, FileKind::Directory, chars_to_string(&str_chars(".."))));
        }
        let ghost dots = out@.map_values(|t: (u64, FileKind, String)| (t.0, t.1, t.2@));
        assert(dots =~= dot_entries(ino, offset));
        let skip: i64 = if offset < i64::MIN + 2 { i64::MIN } else { offset - 2 };
        let mut i: usize = 0;
        while i < entries.len()
            invariant
                i <= entries@.len(),
                self.wf(),
                self.next() == self.inode_paths().len() + 1,
                old(self).next() + entries@.len() < u64::MAX,
                old(self).next() == p0.len() + 1,
                skip == child_skip(offset),
                ev == entries@.map_values(|e: Option<DirEntryFacts>| entry_view(e)),
                self.inode_paths() == list_children(p0, ev, skip, i as int).0,
                out@.map_values(|t: (u64, FileKind, String)| (t.0, t.1, t.2@)) == dots + list_children(p0, ev, skip, i as int).1,
                self.cache() == old(self).cache(),
                self.workspace() == old(self).workspace(),
            decreases entries@.len() - i,
        {
            proof {
                lemma_list_children_grows(p0, ev, skip, i as int);
            }
            let ghost before = out@.map_values(|t: (u64, FileKind, String)| (t.0, t.1, t.2@));
            if (i as i64) < skip {
            } else {
                match &entries[i] {
                    None => {},
                    Some(f) => {
                        assert(ev[i as int] == entry_view(entries@[i as int]));
                        let entry_ino = self.get_or_assign_inode(f.path.as_str());
                        let name = chars_to_string(&str_chars(f.name.as_str()));
                        out.push((entry_ino, f.kind, name));
                        proof {
                            let ps = self.inode_paths();
                            let k = ps.index_of(f.path@);
                            assert(0 <= k < ps.len() && ps[k] == f.path@);
                            assert(ps.no_duplicates());
                            assert((k + 1) as u64 == entry_ino);
                            assert(out@.map_values(|t: (u64, FileKind, String)| (t.0, t.1, t.2@)) =~= before.push((entry_ino, f.kind, f.name@)));
                        }
                    },
                }
            }
            i = i + 1;
        }
        out
    }
}

/// The byte range of a read of `size` bytes at `offset` from a file of `len`
/// bytes: none when the offset is at or past the end, else up to the end.
pub fn read_range(len: usize, offset: i64, size: u32) -> (r: Option<(usize, usize)>)
    requires
        (offset as usize) + (size as usize) <= usize::MAX,
    ensures
        ({
            let start = offset as usize;
            if start >= len {
                r is None
            } else {
                r == Some((start, if start + size < len { (start + size) as usize } else { len }))
            }
        }),
{
    let start = offset as usize;
    let end_wanted = start + size as usize;
    if start >= len {
        None
    } else {
        let end = if end_wanted < len { end_wanted } else { len };
        Some((start, end))
    }
}

/// A path as `{:?}` shows it.
pub open spec fn shown(p: Seq<char>) -> Seq<char> {
    "\""@ + p + "\""@
}

fn message_about(head: &str, p: &str, tail: &str) -> (r: String)
    ensures
        r@ == head@ + shown(p@) + tail@,
{
    let mut v = str_chars(head);
    crate::text::append_str(&mut v, "\"");
    crate::text::append_str(&mut v, p);
    crate::text::append_str(&mut v, "\"");
    crate::text::append_str(&mut v, tail);
    chars_to_string(&v)
}

/// Checks a mount before it starts: the mount point and the workspace must
/// both be existing directories.
pub fn check_mount(
    mount_point: &str,
    mount_exists: bool,
    mount_is_dir: bool,
    workspace: &str,
    workspace_exists: bool,
    workspace_is_dir: bool,
) -> (r: Result<(), String>)
    ensures
        !mount_exists ==> (r matches Err(m) && m@ == "Mount point "@ + shown(mount_point@) + " does not exist"@),
        mount_exists && !mount_is_dir ==> (r matches Err(m) && m@ == "Mount point "@ + shown(mount_point@)
            + " is not a directory"@),
        mount_exists && mount_is_dir && !workspace_exists ==> (r matches Err(m) && m@ == "Workspace path "@
            + shown(workspace@) + " does not exist"@),
        mount_exists && mount_is_dir && workspace_exists && !workspace_is_dir ==> (r matches Err(m)
            && m@ == "Workspace path "@ + shown(workspace@) + " is not a directory"@),
        mount_exists && mount_is_dir && workspace_exists && workspace_is_dir ==> r is Ok,
{
    if !mount_exists {
        return Err(message_about("Mount point ", mount_point, " does not exist"));
    }
    if !mount_is_dir {
        return Err(message_about("Mount point ", mount_point, " is not a directory"));
    }
    if !workspace_exists {
        return Err(message_about("Workspace path ", workspace, " does not exist"));
    }
    if !workspace_is_dir {
        return Err(message_about("Workspace path ", workspace, " is not a directory"));
    }
    Ok(())
}


/// The inode table gives back what it was given: after a path gets its inode,
/// that inode leads back to the path, asking again gives the same inode, and
/// every inode handed out before keeps its path.
pub proof fn law_inode_table_round_trip(paths: Seq<Seq<char>>, p: Seq<char>)
    requires
        paths.no_duplicates(),
    ensures
        with_path(paths, p).no_duplicates(),
        with_path(paths, p).contains(p),
        with_path(paths, p)[with_path(paths, p).index_of(p)] == p,
        with_path(with_path(paths, p), p) == with_path(paths, p),
        forall|k: int| 0 <= k < paths.len() ==> #[trigger] with_path(paths, p)[k] == paths[k],
{
    let w = with_path(paths, p);
    if !paths.contains(p) {
        assert(w[paths.len() as int] == p);
        assert forall|i: int, j: int| 0 <= i < j < w.len() implies w[i] != w[j] by {
            if j == paths.len() {
                assert(paths.contains(paths[i]));
            }
        }
    }
    assert(w.contains(p));
    let k = w.index_of(p);
    assert(0 <= k < w.len() && w[k] == p);
}

} // verus!
