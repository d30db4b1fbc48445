//! Language-server installers of the Go and Swift plugins: what they look for
//! and how they answer what the search found.

use vstd::prelude::*;
use crate::errors::PluginError;
use crate::text::{str_chars, chars_to_string, append_str};

verus! {

/// What searching `PATH` for an executable found.
#[derive(Debug, Clone)]
pub enum WhichOutcome {
    /// The executable's path.
    Found(String),
    /// No executable of that name on the path.
    NotFound,
    /// The search failed; the error's text.
    Failed(String),
}

/// Calls `which::which(name)`: the first executable of that name on `PATH`,
/// `CannotFindBinaryPath` told apart from the other errors. The result depends
/// on the environment and the file system, so nothing is stated of it.
#[verifier::external_body]
pub(crate) fn which_binary(name: &str) -> (r: WhichOutcome) {
    match which::which(name) {
        Ok(p) => WhichOutcome::Found(p.to_string_lossy().to_string()),
        Err(which::Error::CannotFindBinaryPath) => WhichOutcome::NotFound,
        Err(e) => WhichOutcome::Failed(e.to_string()),
    }
}

fn owned(t: &str) -> (s: String)
    ensures
        s@ == t@,
{
    chars_to_string(&str_chars(t))
}

fn message(a: &str, b: &str) -> (s: String)
    ensures
        s@ == a@ + b@,
{
    let mut v: Vec<char> = Vec::new();
    append_str(&mut v, a);
    append_str(&mut v, b);
    chars_to_string(&v)
}

/// `r` is what `gopls`'s check answers when the `PATH` search found `o`.
pub open spec fn go_check_answer(o: WhichOutcome, r: Result<Option<String>, PluginError>) -> bool {
    match o {
        WhichOutcome::Found(p) => r matches Ok(Some(q)) && q@ == p@,
        WhichOutcome::NotFound => r matches Ok(None),
        WhichOutcome::Failed(e) => r matches Err(PluginError::Internal(m)) && m@ == "Failed to check for gopls: "@ + e@,
    }
}

/// `r` is what `sourcekit-lsp`'s check answers when the `PATH` search found `o`.
pub open spec fn swift_check_answer(o: WhichOutcome, r: Result<Option<String>, PluginError>) -> bool {
    match o {
        WhichOutcome::Found(p) => r matches Ok(Some(q)) && q@ == p@,
        _ => r matches Ok(None),
    }
}

/// The text `which` gives for a binary it cannot find.
pub open spec fn not_found_text() -> Seq<char> {
    "cannot find binary path"@
}

/// The operating system an installer gives advice for.
#[derive(Debug, Clone, Copy, PartialEq, Eq, Structural)]
pub enum TargetOs {
    MacOs,
    Linux,
    Other,
}

/// Installer of `gopls`, the Go language server.
#[derive(Debug, Clone, Copy, Default)]
pub struct GoLspInstaller;

impl GoLspInstaller {
    /// The language server's name.
    pub fn lsp_name(&self) -> (r: &'static str)
        ensures
            r@ == "gopls"@,
    {
        "gopls"
    }

    /// What `check_installed` answers for a search outcome.
    pub fn check_outcome(&self, outcome: WhichOutcome) -> (r: Result<Option<String>, PluginError>)
        ensures
            go_check_answer(outcome, r),
    {
        match outcome {
            WhichOutcome::Found(p) => Ok(Some(p)),
            WhichOutcome::NotFound => Ok(None),
            WhichOutcome::Failed(e) => Err(PluginError::Internal(message("Failed to check for gopls: ", e.as_str()))),
        }
    }

    /// Looks for `gopls` on `PATH`: the answer of `check_outcome` for what
    /// the search found, which depends on the environment.
    pub fn check_installed(&self) -> (r: Result<Option<String>, PluginError>)
        ensures
            exists|o: WhichOutcome| #[trigger] go_check_answer(o, r),
    {
        let o = which_binary("gopls");
        let ghost found = o;
        let r = self.check_outcome(o);
        assert(go_check_answer(found, r));
        r
    }

    /// What installing answers once `go install` has run: the path of the
    /// installed server, or why there is none.
    pub fn install_outcome(&self, install_succeeded: bool, found: WhichOutcome) -> (r: Result<String, PluginError>)
        ensures
            !install_succeeded ==> (r matches Err(PluginError::Internal(m))
                && m@ == "Failed to install gopls. Make sure you have Go installed and in your PATH."@),
            install_succeeded ==> match found {
                WhichOutcome::Found(p) => r matches Ok(q) && q@ == p@,
                WhichOutcome::NotFound => r matches Err(PluginError::Internal(m))
                    && m@ == "gopls installed but not found in PATH: "@ + not_found_text(),
                WhichOutcome::Failed(e) => r matches Err(PluginError::Internal(m))
                    && m@ == "gopls installed but not found in PATH: "@ + e@,
            },
    {
        if !install_succeeded {
            return Err(PluginError::Internal(owned(
                "Failed to install gopls. Make sure you have Go installed and in your PATH.",
            )));
        }
        match found {
            WhichOutcome::Found(p) => Ok(p),
            WhichOutcome::NotFound => Err(PluginError::Internal(
                message("gopls installed but not found in PATH: ", "cannot find binary path"),
            )),
            WhichOutcome::Failed(e) => Err(PluginError::Internal(
                message("gopls installed but not found in PATH: ", e.as_str()),
            )),
        }
    }
}

/// Installer of `sourcekit-lsp`, the Swift language server.
#[derive(Debug, Clone, Copy, Default)]
pub struct SwiftLspInstaller;

/// How to get `sourcekit-lsp` on each system.
pub open spec fn swift_install_advice(os: TargetOs) -> Seq<char> {
    match os {
        TargetOs::MacOs => "sourcekit-lsp is included with Xcode. Please install Xcode from the App Store."@,
        TargetOs::Linux => "On Linux, you can install sourcekit-lsp via your system's package manager (e.g., sudo apt-get install sourcekit-lsp) or by building from source from swift.org."@,
        TargetOs::Other => "Unsupported OS for automatic sourcekit-lsp installation."@,
    }
}

impl SwiftLspInstaller {
    /// The language server's name.
    pub fn lsp_name(&self) -> (r: &'static str)
        ensures
            r@ == "sourcekit-lsp"@,
    {
        "sourcekit-lsp"
    }

    /// What a `PATH` search answers: the path when found, `None` otherwise.
    pub fn check_outcome(&self, outcome: WhichOutcome) -> (r: Result<Option<String>, PluginError>)
        ensures
            swift_check_answer(outcome, r),
    {
        match outcome {
            WhichOutcome::Found(p) => Ok(Some(p)),
            _ => Ok(None),
        }
    }

    /// Looks for `sourcekit-lsp` on `PATH` (the check outside macOS).
    pub fn check_installed_on_path(&self) -> (r: Result<Option<String>, PluginError>)
        ensures
            r is Ok,
            exists|o: WhichOutcome| #[trigger] swift_check_answer(o, r),
    {
        let o = which_binary("sourcekit-lsp");
        let ghost found = o;
        let r = self.check_outcome(o);
        assert(swift_check_answer(found, r));
        r
    }

    /// The server cannot be installed automatically: the answer says how to
    /// install it on `os`.
    pub fn install_lsp(&self, os: TargetOs) -> (r: Result<String, PluginError>)
        ensures
            r matches Err(PluginError::NotSupported(m)) && m@ == swift_install_advice(os),
    {
        let text = match os {
            TargetOs::MacOs => owned("sourcekit-lsp is included with Xcode. Please install Xcode from the App Store."),
            TargetOs::Linux => owned("On Linux, you can install sourcekit-lsp via your system's package manager (e.g., sudo apt-get install sourcekit-lsp) or by building from source from swift.org."),
            TargetOs::Other => owned("Unsupported OS for automatic sourcekit-lsp installation."),
        };
        Err(PluginError::NotSupported(text))
    }
}

} // verus!
