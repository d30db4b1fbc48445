//! Go plugin: the files a new Go package starts with.

use vstd::prelude::*;
use crate::paths::{join_relative, join_relative_path};
use crate::text::{str_chars, chars_to_string, append_str};

verus! {

fn owned(t: &str) -> (s: String)
    ensures
        s@ == t@,
{
    chars_to_string(&str_chars(t))
}

/// The Go version written into new `go.mod` files.
pub const DEFAULT_GO_VERSION: &'static str = "1.21";

/// Where a package is to be created.
#[derive(Debug, Clone)]
pub struct CreatePackageConfig {
    /// The package path, relative to the workspace root.
    pub package_path: String,
    /// The workspace root.
    pub workspace_root: String,
}

/// What describes a created package.
#[derive(Debug, Clone)]
pub struct PackageInfo {
    pub name: String,
    pub version: String,
    pub manifest_path: String,
}

/// What creating a package did.
#[derive(Debug, Clone)]
pub struct CreatePackageResult {
    pub created_files: Vec<String>,
    pub package_info: PackageInfo,
    pub workspace_updated: bool,
}

/// The files of a new Go package: its directory, and the path and content of
/// `go.mod` and `main.go`.
#[derive(Debug, Clone)]
pub struct GoPackageLayout {
    pub directory: String,
    pub module_name: String,
    pub go_mod_path: String,
    pub go_mod_content: String,
    pub main_go_path: String,
    pub main_go_content: String,
}

/// The `go.mod` of module `name` for Go `version`.
pub open spec fn go_mod_text(name: Seq<char>, version: Seq<char>) -> Seq<char> {
    "module "@ + name + "\n\ngo "@ + version + "\n"@
}

/// The `main.go` that greets from module `name`.
pub open spec fn main_go_text(name: Seq<char>) -> Seq<char> {
    "package main\n\nimport \"fmt\"\n\nfunc main() {\n\tfmt.Println(\"Hello, "@ + name + "!\")\n}\n"@
}

/// Creates Go packages.
#[derive(Debug, Clone, Copy, Default)]
pub struct GoProjectFactory;

impl GoProjectFactory {
    /// The layout of the package `config` asks for.
    pub fn layout(&self, config: &CreatePackageConfig) -> (r: GoPackageLayout)
        ensures
            r.directory@ == join_relative(config.workspace_root@, config.package_path@),
            r.module_name@ == config.package_path@,
            r.go_mod_path@ == join_relative(r.directory@, "go.mod"@),
            r.go_mod_content@ == go_mod_text(config.package_path@, DEFAULT_GO_VERSION@),
            r.main_go_path@ == join_relative(r.directory@, "main.go"@),
            r.main_go_content@ == main_go_text(config.package_path@),
    {
        let dir = join_relative_path(config.workspace_root.as_str(), config.package_path.as_str());
        let name = config.package_path.as_str();
        let mut m: Vec<char> = Vec::new();
        append_str(&mut m, "module ");
        append_str(&mut m, name);
        append_str(&mut m, "\n\ngo ");
        append_str(&mut m, DEFAULT_GO_VERSION);
        append_str(&mut m, "\n");
        let mut g: Vec<char> = Vec::new();
        append_str(&mut g, "package main\n\nimport \"fmt\"\n\nfunc main() {\n\tfmt.Println(\"Hello, ");
        append_str(&mut g, name);
        append_str(&mut g, "!\")\n}\n");
        GoPackageLayout {
            go_mod_path: join_relative_path(dir.as_str(), "go.mod"),
            main_go_path: join_relative_path(dir.as_str(), "main.go"),
            directory: dir,
            module_name: owned(name),
            go_mod_content: chars_to_string(&m),
            main_go_content: chars_to_string(&g),
        }
    }

    /// What creating the package reports once its files are written.
    pub fn created(&self, layout: &GoPackageLayout) -> (r: CreatePackageResult)
        ensures
            r.created_files@.map_values(|s: String| s@) == seq![layout.go_mod_path@, layout.main_go_path@],
            r.package_info.name@ == layout.module_name@,
            r.package_info.version@ == "1.0.0"@,
            r.package_info.manifest_path@ == layout.go_mod_path@,
            !r.workspace_updated,
    {
        let mut files: Vec<String> = Vec::new();
        files.push(owned(layout.go_mod_path.as_str()));
        files.push(owned(layout.main_go_path.as_str()));
        assert(files@.map_values(|s: String| s@) =~= seq![layout.go_mod_path@, layout.main_go_path@]);
        CreatePackageResult {
            created_files: files,
            package_info: PackageInfo {
                name: owned(layout.module_name.as_str()),
                version: owned("1.0.0"),
                manifest_path: owned(layout.go_mod_path.as_str()),
            },
            workspace_updated: false,
        }
    }
}

} // verus!
