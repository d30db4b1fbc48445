//! Calls into `std::path`: the parts of a path that the library reads.

use vstd::prelude::*;

verus! {

/// What `Path::new(path).file_name()` returns, as text.
pub uninterp spec fn path_file_name_of(path: Seq<char>) -> Option<Seq<char>>;

/// Calls `std::path::Path::file_name` on `path`: the final component of the
/// path, `None` when it ends in `..` or has no component. A `str` path gives a
/// UTF-8 name, so `to_str` succeeds. The result is named, not described.
#[verifier::external_body]
pub(crate) fn path_file_name(path: &str) -> (r: Option<String>)
    ensures
        match r {
            Some(n) => path_file_name_of(path@) == Some(n@),
            None => path_file_name_of(path@) is None,
        },
{
    std::path::Path::new(path).file_name().and_then(|n| n.to_str()).map(|n| n.to_string())
}

/// What `Path::new(path).file_stem()` returns, as text.
pub uninterp spec fn path_file_stem_of(path: Seq<char>) -> Option<Seq<char>>;

/// Calls `std::path::Path::file_stem` on `path`: the final component without
/// its last extension, `None` when there is no final component. The result is
/// named, not described.
#[verifier::external_body]
pub(crate) fn path_file_stem(path: &str) -> (r: Option<String>)
    ensures
        match r {
            Some(n) => path_file_stem_of(path@) == Some(n@),
            None => path_file_stem_of(path@) is None,
        },
{
    std::path::Path::new(path).file_stem().and_then(|n| n.to_str()).map(|n| n.to_string())
}

/// `base` joined with `part` as `PathBuf::push` does on Unix: an absolute
/// `part` replaces `base`; otherwise a `/` is put between them unless `base`
/// is empty or already ends in one.
pub open spec fn join_relative(base: Seq<char>, part: Seq<char>) -> Seq<char> {
    if part.len() > 0 && part[0] == '/' {
        part
    } else if base.len() == 0 || base.last() == '/' {
        base + part
    } else {
        base + seq!['/'] + part
    }
}

/// Joins two paths, like `Path::join` on Unix.
pub fn join_relative_path(base: &str, part: &str) -> (r: String)
    ensures
        r@ == join_relative(base@, part@),
{
    let b = crate::text::str_chars(base);
    let p = crate::text::str_chars(part);
    if p.len() > 0 && p[0] == '/' {
        return crate::text::chars_to_string(&p);
    }
    let mut out = b;
    if out.len() > 0 && out[out.len() - 1] != '/' {
        out.push('/');
    }
    crate::text::append_chars(&mut out, &p);
    crate::text::chars_to_string(&out)
}

/// Calls `std::path::Path::exists`: whether the file system has an entry at
/// `path`. It depends on the disk, so nothing is stated of it.
#[verifier::external_body]
pub(crate) fn path_exists(path: &str) -> (r: bool) {
    std::path::Path::new(path).exists()
}

/// What `Path::new(path).extension()` returns, as text.
pub uninterp spec fn path_extension_of(path: Seq<char>) -> Option<Seq<char>>;

/// Calls `std::path::Path::extension`: the text after the last `.` of the
/// file name, if any. The result is named, not described.
#[verifier::external_body]
pub(crate) fn path_extension(path: &str) -> (r: Option<String>)
    ensures
        match r {
            Some(e) => path_extension_of(path@) == Some(e@),
            None => path_extension_of(path@) is None,
        },
{
    std::path::Path::new(path).extension().and_then(|e| e.to_str()).map(|e| e.to_string())
}

/// Calls `std::path::Path::is_file`: whether the entry at `path` is a regular
/// file. It depends on the disk, so nothing is stated of it.
#[verifier::external_body]
pub(crate) fn path_is_file(path: &str) -> (r: bool) {
    std::path::Path::new(path).is_file()
}


/// Joining an absolute path onto any base gives the absolute path.
pub proof fn law_absolute_path_kept(base: Seq<char>, part: Seq<char>)
    requires
        part.len() > 0,
        part[0] == '/',
    ensures
        join_relative(base, part) == part,
{
}

} // verus!
