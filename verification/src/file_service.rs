//! File operations of the server: where a path points inside the project and
//! what each operation decides from the state of the file system.

use vstd::prelude::*;
use crate::numeric::{decimal, usize_to_decimal};
use crate::paths::{join_relative, join_relative_path};
use crate::server_errors::ServerError;
use crate::text::{str_chars, chars_to_string, append_str, append_chars, has_prefix};

verus! {

/// The counts of an import update.
#[derive(Debug, Clone, Copy)]
pub struct ImportUpdateReport {
    /// Imports rewritten.
    pub imports_updated: usize,
    /// Files touched.
    pub files_updated: usize,
}

/// Result of renaming a file.
#[derive(Debug, Clone)]
pub struct FileRenameResult {
    /// Original path.
    pub old_path: String,
    /// New path.
    pub new_path: String,
    /// The rename happened (or would, in a dry run).
    pub success: bool,
    /// What the import update did.
    pub import_updates: Option<ImportUpdateReport>,
    /// What went wrong, if anything.
    pub error: Option<String>,
}

/// File operations rooted at a project directory.
#[derive(Debug, Clone)]
pub struct FileService {
    /// The project root.
    pub project_root: String,
}

/// A path as `{:?}` prints it (quoted).
pub open spec fn quoted(p: Seq<char>) -> Seq<char> {
    "\""@ + p + "\""@
}

fn quote(p: &str) -> (r: Vec<char>)
    ensures
        r@ == quoted(p@),
{
    let mut v: Vec<char> = Vec::new();
    append_str(&mut v, "\"");
    append_str(&mut v, p);
    append_str(&mut v, "\"");
    v
}

fn message_with_path(head: &str, p: &str) -> (r: String)
    ensures
        r@ == head@ + quoted(p@),
{
    let mut v: Vec<char> = Vec::new();
    append_str(&mut v, head);
    let q = quote(p);
    append_chars(&mut v, &q);
    chars_to_string(&v)
}

/// What deleting a file does.
#[derive(Debug)]
pub enum DeleteStep {
    /// Nothing to delete and nothing to report.
    Skip,
    /// Delete the file.
    Delete,
    /// Refuse, for the reason given.
    Refuse(ServerError),
}

impl FileService {
    /// A service rooted at `project_root`.
    pub fn new(project_root: &str) -> (r: Self)
        ensures
            r.project_root@ == project_root@,
    {
        FileService { project_root: chars_to_string(&str_chars(project_root)) }
    }

    /// The absolute form of `path`: itself when absolute, else under the project root.
    pub fn to_absolute_path(&self, path: &str) -> (r: String)
        ensures
            r@ == join_relative(self.project_root@, path@),
    {
        join_relative_path(self.project_root.as_str(), path)
    }

    /// Whether a rename may go ahead: the source must exist and, unless it is
    /// a dry run, the destination must not.
    pub fn rename_check(&self, old_abs: &str, new_abs: &str, old_exists: bool, new_exists: bool, dry_run: bool)
        -> (r: Result<(), ServerError>)
        ensures
            !old_exists ==> (r matches Err(ServerError::NotFound(m)) && m@ == "Source file does not exist: "@ + quoted(old_abs@)),
            old_exists && new_exists && !dry_run ==> (r matches Err(ServerError::AlreadyExists(m))
                && m@ == "Destination file already exists: "@ + quoted(new_abs@)),
            old_exists && (!new_exists || dry_run) ==> r is Ok,
    {
        if !old_exists {
            return Err(ServerError::NotFound(message_with_path("Source file does not exist: ", old_abs)));
        }
        if new_exists && !dry_run {
            return Err(ServerError::AlreadyExists(message_with_path("Destination file already exists: ", new_abs)));
        }
        Ok(())
    }

    /// Whether a file may be created: an existing file is only replaced when asked.
    pub fn create_check(&self, abs_path: &str, exists: bool, overwrite: bool) -> (r: Result<(), ServerError>)
        ensures
            exists && !overwrite ==> (r matches Err(ServerError::AlreadyExists(m)) && m@ == "File already exists: "@ + quoted(abs_path@)),
            !(exists && !overwrite) ==> r is Ok,
    {
        if exists && !overwrite {
            return Err(ServerError::AlreadyExists(message_with_path("File already exists: ", abs_path)));
        }
        Ok(())
    }

    /// Whether a file may be read: it must exist.
    pub fn read_check(&self, abs_path: &str, exists: bool) -> (r: Result<(), ServerError>)
        ensures
            !exists ==> (r matches Err(ServerError::NotFound(m)) && m@ == "File does not exist: "@ + quoted(abs_path@)),
            exists ==> r is Ok,
    {
        if !exists {
            return Err(ServerError::NotFound(message_with_path("File does not exist: ", abs_path)));
        }
        Ok(())
    }

    /// What deleting does: a missing file is skipped when forced and refused
    /// otherwise; a file other files import is refused unless forced.
    pub fn delete_step(&self, abs_path: &str, exists: bool, force: bool, importers: usize) -> (r: DeleteStep)
        ensures
            !exists && force ==> r is Skip,
            !exists && !force ==> (r matches DeleteStep::Refuse(ServerError::NotFound(m))
                && m@ == "File does not exist: "@ + quoted(abs_path@)),
            exists && !force && importers > 0 ==> (r matches DeleteStep::Refuse(ServerError::InvalidRequest(m))
                && m@ == "File is imported by "@ + decimal(importers as nat) + " other files"@),
            exists && (force || importers == 0) ==> r is Delete,
    {
        if !exists {
            if force {
                return DeleteStep::Skip;
            }
            return DeleteStep::Refuse(ServerError::NotFound(message_with_path("File does not exist: ", abs_path)));
        }
        if !force && importers > 0 {
            let mut v: Vec<char> = Vec::new();
            append_str(&mut v, "File is imported by ");
            let n = usize_to_decimal(importers);
            append_chars(&mut v, &n);
            append_str(&mut v, " other files");
            return DeleteStep::Refuse(ServerError::InvalidRequest(chars_to_string(&v)));
        }
        DeleteStep::Delete
    }
}

/// What the tool handlers share: the file service and the project root.
#[derive(Debug, Clone)]
pub struct AppState {
    pub file_service: FileService,
    pub project_root: String,
}

impl AppState {
    /// The state of a server rooted at `project_root`.
    pub fn new(project_root: &str) -> (r: Self)
        ensures
            r.project_root@ == project_root@,
            r.file_service.project_root@ == project_root@,
    {
        AppState { file_service: FileService::new(project_root), project_root: chars_to_string(&str_chars(project_root)) }
    }
}


/// The text a server error of the library's own making displays (`None` for
/// one that wraps an I/O, JSON or core error, whose text comes from there).
pub open spec fn own_error_text(e: ServerError) -> Option<Seq<char>> {
    match e {
        ServerError::Config { message } => Some("Configuration error: "@ + message@),
        ServerError::Bootstrap { message } => Some("Bootstrap error: "@ + message@),
        ServerError::Runtime { message } => Some("Runtime error: "@ + message@),
        ServerError::InvalidRequest(m) => Some("Invalid request: "@ + m@),
        ServerError::Unsupported(m) => Some("Unsupported operation: "@ + m@),
        ServerError::Auth(m) => Some("Authentication error: "@ + m@),
        ServerError::NotFound(m) => Some("Not found: "@ + m@),
        ServerError::AlreadyExists(m) => Some("Already exists: "@ + m@),
        ServerError::Internal(m) => Some("Internal error: "@ + m@),
        _ => None,
    }
}

impl FileService {
    /// The result of renaming `old_abs` to `new_abs` once the file has been
    /// moved (or, in a dry run, checked), given what updating the imports
    /// gave: in a dry run a failed update is the error; after a real rename
    /// it is reported beside a successful rename.
    pub fn rename_result(&self, old_abs: &str, new_abs: &str, dry_run: bool, imports: Result<ImportUpdateReport, ServerError>)
        -> (r: Result<FileRenameResult, ServerError>)
        ensures
            match imports {
                Ok(report) => r matches Ok(res) && res.old_path@ == old_abs@ && res.new_path@ == new_abs@ && res.success
                    && res.import_updates == Some(report) && res.error is None,
                Err(e) => if dry_run {
                    r matches Err(x) && x == e
                } else {
                    r matches Ok(res) && res.old_path@ == old_abs@ && res.new_path@ == new_abs@ && res.success
                        && res.import_updates is None
                        && (res.error matches Some(m) && has_prefix(m@, "Import updates failed: "@)
                            && (own_error_text(e) matches Some(t) ==> m@ == "Import updates failed: "@ + t))
                },
            },
    {
        match imports {
            Ok(report) => {
                let res = FileRenameResult {
                    old_path: chars_to_string(&str_chars(old_abs)),
                    new_path: chars_to_string(&str_chars(new_abs)),
                    success: true,
                    import_updates: Some(report),
                    error: None,
                };
                Ok(res)
            },
            Err(e) => {
                if dry_run {
                    return Err(e);
                }
                let t = crate::server_errors::server_error_text(&e);
                let mut m = str_chars("Import updates failed: ");
                append_str(&mut m, t.as_str());
                assert(m@.subrange(0, "Import updates failed: "@.len() as int) =~= "Import updates failed: "@);
                Ok(FileRenameResult {
                    old_path: chars_to_string(&str_chars(old_abs)),
                    new_path: chars_to_string(&str_chars(new_abs)),
                    success: true,
                    import_updates: None,
                    error: Some(chars_to_string(&m)),
                })
            },
        }
    }
}

} // verus!
