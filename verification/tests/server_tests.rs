use codebuddy::csharp::{is_in_multiline_comment, strip_single_line_comments};
use codebuddy::edit::CodeRange;
use codebuddy::file_service::{DeleteStep, FileService, ImportUpdateReport};
use codebuddy::go_project::{CreatePackageConfig, GoProjectFactory};
use codebuddy::lsp_installers::{GoLspInstaller, SwiftLspInstaller, TargetOs, WhichOutcome};
use codebuddy::lsp_protocol::{
    classify_response, frame_message, parse_content_length, split_command, IncomingAction, RequestTable, ResponseKind,
};
use codebuddy::package_extractor::{
    plan_extract_module_to_package, AstError, ExtractModuleToPackageParams, LanguageAdapter, ProjectLanguage,
    PythonAdapter, RustAdapter, TypeScriptAdapter,
};
use codebuddy::python_ast::{from_import_info, is_constant_name, plain_import_info, relative_module_path};
use codebuddy::server_checks::{
    dead_symbol_if_unreferenced, lsp_kind_to_string, should_analyze_kind, validate_code_range, validate_position,
    verify_syntax, AnalysisConfig,
};
use codebuddy::server_errors::ServerError;
use codebuddy::fuse_fs::{check_mount, read_range, CodeflowFS, DirEntryFacts, FileFacts, FileKind, Timestamp};
use codebuddy::mcp_dispatch::{DispatchPlan, McpDispatcher, McpMessageModel, McpRoute};
use codebuddy::mcp_editing::{
    create_file_result, organize_imports_outcome, organize_imports_reply, package_json_changes, required_file_path,
    resolve_format_options, FormatOptions, OrganizeImportsOutcome,
};
use codebuddy::workspace_edit::{apply_workspace_edits, check_edit_ranges, edits_fit, order_edits, WorkspaceTextEdit};

#[test]
fn test_parse_content_length() {
    assert_eq!(parse_content_length("Content-Length: 123"), Some(123));
    assert_eq!(parse_content_length("Content-Length: 0"), Some(0));
    assert_eq!(parse_content_length("Other header"), None);
    assert_eq!(parse_content_length("Content-Length: invalid"), None);
}

#[test]
fn lsp_framing_counts_bytes() {
    assert_eq!(frame_message("{}"), "Content-Length: 2\r\n\r\n{}");
    assert_eq!(frame_message("\"é\""), "Content-Length: 4\r\n\r\n\"é\"");
    match classify_response(true, None, true) {
        ResponseKind::Failure(m) => assert_eq!(m, "Unknown error"),
        _ => panic!("expected a failure"),
    }
    assert!(matches!(classify_response(false, None, true), ResponseKind::Success));
    assert!(matches!(classify_response(false, None, false), ResponseKind::Malformed));
}

#[test]
fn csharp_comment_helpers() {
    assert_eq!(strip_single_line_comments("code // comment"), "code ");
    assert_eq!(strip_single_line_comments("no comment"), "no comment");
    assert!(is_in_multiline_comment("   /* start"));
    assert!(is_in_multiline_comment("\t * middle"));
    assert!(!is_in_multiline_comment("int x = 1; /* c */"));
}

#[test]
fn position_and_range_checks() {
    let src = "abc\nde\n";
    assert!(validate_position(src, 1, 2).is_ok());
    assert_eq!(validate_position(src, 1, 3).unwrap_err(), "Column 3 is beyond line length 2");
    assert_eq!(validate_position(src, 2, 0).unwrap_err(), "Line 2 is beyond source length 2");
    let r = CodeRange { start_line: 0, start_col: 2, end_line: 0, end_col: 1 };
    assert_eq!(validate_code_range(src, &r).unwrap_err(), "Invalid range: start position after end position");
    let r2 = CodeRange { start_line: 0, start_col: 0, end_line: 5, end_col: 0 };
    assert_eq!(validate_code_range(src, &r2).unwrap_err(), "End line 5 is beyond source length 2");
    let r3 = CodeRange { start_line: 0, start_col: 1, end_line: 1, end_col: 0 };
    assert!(validate_code_range(src, &r3).is_ok());
}

#[test]
fn syntax_checks() {
    assert!(verify_syntax("   \n", "a.rs", None).is_err());
    assert!(verify_syntax("fn main() {}", "a.rs", None).is_ok());
    assert_eq!(verify_syntax("x", "a.ts", Some("bad token".to_string())).unwrap_err(), "Syntax validation failed: bad token");
    assert!(verify_syntax("", "notes.txt", Some("ignored".to_string())).is_ok());
}

#[test]
fn dead_code_rules() {
    let config = AnalysisConfig::default();
    assert_eq!(config.max_concurrent_checks, 20);
    assert!(should_analyze_kind(Some(12), &config));
    assert!(!should_analyze_kind(Some(13), &config));
    assert!(!should_analyze_kind(None, &config));
    assert_eq!(lsp_kind_to_string(5), "class");
    assert_eq!(lsp_kind_to_string(99), "symbol");
    let dead = dead_symbol_if_unreferenced("f".to_string(), 12, "file:///src/a.rs", 3, 4, 1).unwrap();
    assert_eq!(dead.file_path, "/src/a.rs");
    assert_eq!(dead.kind, "function");
    assert!(dead_symbol_if_unreferenced("g".to_string(), 12, "file:///a.rs", 0, 0, 2).is_none());
}

#[test]
fn file_service_decisions() {
    let fs = FileService::new("/proj");
    assert_eq!(fs.to_absolute_path("src/a.rs"), "/proj/src/a.rs");
    assert_eq!(fs.to_absolute_path("/etc/x"), "/etc/x");
    match fs.rename_check("/proj/a", "/proj/b", false, false, false) {
        Err(ServerError::NotFound(m)) => assert_eq!(m, "Source file does not exist: \"/proj/a\""),
        _ => panic!("expected not found"),
    }
    assert!(fs.rename_check("/proj/a", "/proj/b", true, true, true).is_ok());
    assert!(matches!(fs.delete_step("/proj/a", false, true, 0), DeleteStep::Skip));
    match fs.delete_step("/proj/a", true, false, 2) {
        DeleteStep::Refuse(ServerError::InvalidRequest(m)) => assert_eq!(m, "File is imported by 2 other files"),
        _ => panic!("expected a refusal"),
    }
    assert!(matches!(fs.delete_step("/proj/a", true, true, 2), DeleteStep::Delete));
}

#[test]
fn lsp_installer_answers() {
    assert_eq!(GoLspInstaller.lsp_name(), "gopls");
    assert_eq!(SwiftLspInstaller.lsp_name(), "sourcekit-lsp");
    assert_eq!(GoLspInstaller.check_outcome(WhichOutcome::NotFound).unwrap(), None);
    assert!(GoLspInstaller.check_outcome(WhichOutcome::Failed("x".to_string())).is_err());
    assert_eq!(GoLspInstaller.install_outcome(true, WhichOutcome::Found("/bin/gopls".to_string())).unwrap(), "/bin/gopls");
    assert!(GoLspInstaller.install_outcome(false, WhichOutcome::Found("/bin/gopls".to_string())).is_err());
    assert!(SwiftLspInstaller.install_lsp(TargetOs::Linux).is_err());
    assert_eq!(SwiftLspInstaller.check_outcome(WhichOutcome::Failed("x".to_string())).unwrap(), None);
}

#[test]
fn package_extractor_adapters() {
    assert_eq!(RustAdapter.manifest_filename(), "Cargo.toml");
    assert_eq!(RustAdapter.module_separator(), "::");
    assert_eq!(TypeScriptAdapter.entry_point(), "index.ts");
    assert_eq!(PythonAdapter.source_dir(), "");
    assert_eq!(PythonAdapter.language(), ProjectLanguage::Python);
    let places = RustAdapter.module_places("/p", "services::planner").unwrap();
    assert_eq!(places.3, "/p/src/services/planner.rs");
    assert_eq!(places.4, "/p/src/services/planner/mod.rs");
    assert!(RustAdapter.module_places("/p", "::").is_none());
    let found = RustAdapter.locate_with("/p", "a.b", true, false, true).unwrap();
    assert_eq!(found, vec!["/p/src/a/b/mod.rs".to_string()]);
    match RustAdapter.locate_with("/p", "m", true, false, false) {
        Err(AstError::Analysis { message }) => {
            assert_eq!(message, "Module 'm' not found at /p/src (checked both m.rs and m/mod.rs)")
        }
        _ => panic!("expected an analysis error"),
    }
    let params = ExtractModuleToPackageParams {
        source_package: "/nowhere".to_string(),
        module: "m".to_string(),
        target_package_path: "/t".to_string(),
        target_package_name: "t".to_string(),
        update_imports: None,
        create_manifest: None,
        dry_run: None,
    };
    assert!(matches!(plan_extract_module_to_package(params, ProjectLanguage::Go), Err(AstError::UnsupportedSyntax { .. })));
}

#[test]
fn go_project_layout() {
    let config = CreatePackageConfig { package_path: "hello".to_string(), workspace_root: "/ws".to_string() };
    let layout = GoProjectFactory.layout(&config);
    assert_eq!(layout.go_mod_path, "/ws/hello/go.mod");
    assert_eq!(layout.go_mod_content, "module hello\n\ngo 1.21\n");
    assert!(layout.main_go_content.contains("Hello, hello!"));
    let result = GoProjectFactory.created(&layout);
    assert_eq!(result.created_files.len(), 2);
    assert_eq!(result.package_info.version, "1.0.0");
}

#[test]
fn python_import_records() {
    assert_eq!(relative_module_path(Some("config".to_string()), Some(2)), "..config");
    assert_eq!(relative_module_path(None, None), ".");
    assert_eq!(relative_module_path(Some("os".to_string()), Some(0)), "os");
    let plain = plain_import_info("sys", Some("system".to_string()), 1);
    assert_eq!(plain.namespace_import, Some("system".to_string()));
    let from = from_import_info(Some("typing".to_string()), None,
        vec![("Dict".to_string(), None), ("List".to_string(), Some("ArrayList".to_string()))], 3);
    assert_eq!(from.module, "typing");
    assert_eq!(from.named_imports.len(), 2);
    assert_eq!(from.named_imports[1].alias, Some("ArrayList".to_string()));
    assert!(is_constant_name("CONSTANT_VALUE"));
    assert!(!is_constant_name("value"));
}

// ---- workspace edits ----

fn ws_edit(sl: usize, sc: usize, el: usize, ec: usize, text: Option<&str>) -> WorkspaceTextEdit {
    WorkspaceTextEdit {
        start_line: sl,
        start_character: sc,
        end_line: el,
        end_character: ec,
        has_range: true,
        new_text: text.map(|t| t.to_string()),
    }
}

#[test]
fn workspace_edits_apply_last_line_first() {
    let content = "line one\nline two\nline three";
    let edits = vec![ws_edit(0, 5, 0, 8, Some("ONE")), ws_edit(2, 0, 2, 4, Some("LINE"))];
    let (text, count, order) = apply_workspace_edits(content, &edits);
    assert_eq!(text, "line ONE\nline two\nLINE three");
    assert_eq!(count, 2);
    assert_eq!(order, vec![1, 0]);
}

#[test]
fn workspace_edits_same_line_keep_request_order() {
    let edits = vec![ws_edit(1, 0, 1, 1, Some("a")), ws_edit(4, 0, 4, 0, Some("b")), ws_edit(1, 3, 1, 3, Some("c"))];
    assert_eq!(order_edits(&edits), vec![1, 0, 2]);
}

#[test]
fn workspace_edits_multi_line() {
    let (text, count, _) = apply_workspace_edits("a\nb\nc\nd", &vec![ws_edit(1, 0, 2, 1, Some("X\nY"))]);
    assert_eq!(text, "a\nX\nY\nd");
    assert_eq!(count, 1);
    // a single replacement line takes the start piece but not the end piece
    let (text, _, _) = apply_workspace_edits("abc\ndef", &vec![ws_edit(0, 1, 1, 1, Some("Z"))]);
    assert_eq!(text, "aZ");
    // an empty replacement joins the start and end pieces
    let (text, _, _) = apply_workspace_edits("abc\ndef\nghi", &vec![ws_edit(0, 1, 1, 2, Some(""))]);
    assert_eq!(text, "af\nghi");
}

#[test]
fn workspace_edits_without_text_or_range_do_nothing() {
    let mut no_range = ws_edit(0, 0, 0, 1, Some("Q"));
    no_range.has_range = false;
    let edits: Vec<WorkspaceTextEdit> = vec![ws_edit(0, 0, 0, 1, None), no_range];
    let (text, count, _) = apply_workspace_edits("abc\n", &edits);
    assert_eq!(text, "abc");
    assert_eq!(count, 0);
}

#[test]
fn workspace_edits_fit_check() {
    let content = "0\n1\n2\n3\n4";
    assert!(edits_fit(content, &vec![ws_edit(1, 0, 3, 0, Some("x"))]));
    assert!(edits_fit(content, &vec![ws_edit(3, 0, 2, 0, Some("x"))]));
    assert!(!edits_fit(content, &vec![ws_edit(3, 0, 1, 0, Some("x"))]));
    assert!(edits_fit(content, &vec![ws_edit(3, 0, 1, 0, None)]));
}

#[test]
fn workspace_edit_range_check() {
    assert!(check_edit_ranges("f.txt", "a\nb", &vec![ws_edit(0, 0, 1, 1, Some("x"))]).is_ok());
    assert_eq!(
        check_edit_ranges("f.txt", "a\nb", &vec![ws_edit(0, 0, 5, 0, None)]).unwrap_err(),
        "Invalid range in f.txt: line 5 out of bounds (file has 2 lines)"
    );
    let mut no_range = ws_edit(9, 0, 9, 0, Some("x"));
    no_range.has_range = false;
    assert!(check_edit_ranges("f.txt", "a\nb", &vec![no_range]).is_ok());
}

// ---- MCP dispatch decisions ----

#[test]
fn mcp_dispatcher_lists_registered_tools() {
    let mut d = McpDispatcher::new();
    d.register_tool("test_tool");
    d.register_tool("echo");
    d.register_tool("test_tool");
    assert_eq!(McpDispatcher::route("tools/list").unwrap(), McpRoute::ListTools);
    assert_eq!(d.tool_names(), vec!["test_tool".to_string(), "echo".to_string()]);
    assert_eq!(McpDispatcher::tool_description("echo"), "echo tool");
}

#[test]
fn mcp_dispatcher_tool_calls() {
    let mut d = McpDispatcher::new();
    d.register_tool("echo");
    assert_eq!(McpDispatcher::route("tools/call").unwrap(), McpRoute::CallTool);
    assert!(d.check_tool_call(true, "echo").is_ok());
    assert!(d.has_tool("echo"));
    assert!(!d.has_tool("ech"));
    match d.check_tool_call(true, "missing") {
        Err(ServerError::Unsupported(m)) => assert_eq!(m, "Unknown tool: missing"),
        other => panic!("unexpected {:?}", other),
    }
    match d.check_tool_call(false, "echo") {
        Err(ServerError::InvalidRequest(m)) => assert_eq!(m, "Missing params"),
        other => panic!("unexpected {:?}", other),
    }
    match McpDispatcher::route("resources/list") {
        Err(ServerError::Unsupported(m)) => assert_eq!(m, "Unknown method: resources/list"),
        other => panic!("unexpected {:?}", other),
    }
}

#[test]
fn format_options_defaults() {
    let (sent, reported) = resolve_format_options(None);
    assert_eq!((sent.tab_size, sent.insert_spaces), (2, true));
    assert_eq!(sent.trim_trailing_whitespace, Some(true));
    assert_eq!(sent.insert_final_newline, Some(true));
    assert_eq!(sent.trim_final_newlines, Some(true));
    assert!(reported.trim_final_newlines);
    let given = FormatOptions {
        tab_size: Some(4),
        insert_spaces: Some(false),
        trim_trailing_whitespace: Some(false),
        insert_final_newline: None,
        trim_final_newlines: None,
    };
    let (sent, reported) = resolve_format_options(Some(given));
    assert_eq!((sent.tab_size, sent.insert_spaces), (4, false));
    assert_eq!(sent.trim_trailing_whitespace, Some(false));
    assert_eq!(sent.insert_final_newline, None);
    assert_eq!(sent.trim_final_newlines, None);
    assert!(!reported.trim_trailing_whitespace);
    assert!(reported.insert_final_newline);
    assert!(reported.trim_final_newlines);
    let partial = FormatOptions { tab_size: None, insert_spaces: None, trim_trailing_whitespace: None,
        insert_final_newline: None, trim_final_newlines: None };
    let (sent, _) = resolve_format_options(Some(partial));
    assert_eq!((sent.tab_size, sent.insert_spaces), (2, true));
    assert_eq!(sent.trim_trailing_whitespace, None);
}

#[test]
fn organize_imports_outcomes() {
    assert_eq!(organize_imports_outcome(&vec![]), OrganizeImportsOutcome::NothingToDo);
    assert_eq!(organize_imports_outcome(&vec![false, true]), OrganizeImportsOutcome::SingleEdit(1));
    assert_eq!(organize_imports_outcome(&vec![true, false, true]), OrganizeImportsOutcome::Combined(vec![0, 2]));
    assert_eq!(organize_imports_outcome(&vec![false]), OrganizeImportsOutcome::Combined(vec![]));
}

// ---- workspace file system ----

fn facts(is_dir: bool, len: u64) -> FileFacts {
    let t = Timestamp { secs: 1_700_000_000, nanos: 5 };
    FileFacts { is_dir, is_file: !is_dir, is_symlink: false, len, accessed: t, modified: t, created: t }
}

#[test]
fn test_codeflow_fs_creation() {
    let workspace_path = "/tmp/workspace";
    let fs = CodeflowFS::new(workspace_path);
    assert_eq!(fs.workspace_path(), workspace_path);
    assert_eq!(fs.next_inode(), 2);
    assert!(fs.inode_path(1).is_some());
    assert!(fs.inode_of(workspace_path).is_some());
}

#[test]
fn test_get_or_assign_inode() {
    let mut fs = CodeflowFS::new("/tmp/workspace");
    let test_path = "/test/path";
    let inode1 = fs.get_or_assign_inode(test_path);
    let inode2 = fs.get_or_assign_inode(test_path);
    assert_eq!(inode1, inode2);
    assert_eq!(inode1, 2);
}

#[test]
fn test_metadata_to_attr() {
    let fs = CodeflowFS::new("/tmp/workspace");
    let attr = fs.metadata_to_attr(&facts(true, 4096), 1);
    assert_eq!(attr.ino, 1);
    assert_eq!(attr.kind, FileKind::Directory);
    assert_eq!(attr.perm, 0o755);
}

#[test]
fn fuse_attributes_of_a_file() {
    let fs = CodeflowFS::new("/w");
    let attr = fs.metadata_to_attr(&facts(false, 1025), 7);
    assert_eq!(attr.kind, FileKind::RegularFile);
    assert_eq!(attr.perm, 0o644);
    assert_eq!(attr.blocks, 3);
    assert_eq!(attr.size, 1025);
    assert_eq!((attr.uid, attr.gid, attr.nlink, attr.blksize), (1000, 1000, 1, 4096));
    assert_eq!(attr.crtime, attr.ctime);
    let empty = fs.metadata_to_attr(&facts(false, 0), 8);
    assert_eq!(empty.blocks, 0);
}

#[test]
fn fuse_inode_round_trip() {
    let mut fs = CodeflowFS::new("/w");
    let a = fs.get_or_assign_inode("/w/a.rs");
    let b = fs.get_or_assign_inode("/w/b.rs");
    assert_eq!((a, b), (2, 3));
    assert_eq!(fs.inode_path(a).unwrap(), "/w/a.rs");
    assert_eq!(fs.inode_path(b).unwrap(), "/w/b.rs");
    assert_eq!(fs.inode_of("/w/a.rs"), Some(2));
    assert_eq!(fs.inode_path(1).unwrap(), "/w");
    assert!(fs.inode_path(0).is_none());
    assert!(fs.inode_path(4).is_none());
    assert_eq!(fs.next_inode(), 4);
}

#[test]
fn fuse_lookup_and_getattr() {
    let mut fs = CodeflowFS::new("/w");
    assert_eq!(fs.resolve_path(1, "src").unwrap(), "/w/src");
    assert!(fs.resolve_path(9, "src").is_none());
    let attr = fs.record_lookup("/w/src", &facts(true, 0));
    assert_eq!(attr.ino, 2);
    assert_eq!(fs.cached_attr(2), Some(attr));
    assert!(fs.cached_attr(1).is_none());
    let root = fs.record_attr(1, &facts(true, 0));
    assert_eq!(fs.cached_attr(1), Some(root));
}

#[test]
fn fuse_directory_listing_offsets() {
    let mut fs = CodeflowFS::new("/w");
    let entry = |p: &str, n: &str, k: FileKind| Some(DirEntryFacts { path: p.to_string(), name: n.to_string(), kind: k });
    let entries = vec![entry("/w/a", "a", FileKind::RegularFile), None, entry("/w/d", "d", FileKind::Directory)];
    let all = fs.list_directory(1, 0, &entries);
    let names: Vec<(u64, String)> = all.iter().map(|(i, _, n)| (*i, n.clone())).collect();
    assert_eq!(names, vec![(1, ".".to_string()), (1, "..".to_string()), (2, "a".to_string()), (3, "d".to_string())]);
    let later = fs.list_directory(1, 3, &entries);
    let names: Vec<(u64, String)> = later.iter().map(|(i, _, n)| (*i, n.clone())).collect();
    assert_eq!(names, vec![(3, "d".to_string())]);
    let from_one = fs.list_directory(1, 1, &entries);
    assert_eq!(from_one.len(), 3);
    assert_eq!(from_one[0].2, "..");
}

#[test]
fn fuse_read_ranges() {
    assert_eq!(read_range(10, 0, 4), Some((0, 4)));
    assert_eq!(read_range(10, 8, 4), Some((8, 10)));
    assert_eq!(read_range(10, 10, 4), None);
    assert_eq!(read_range(0, 0, 4), None);
}

#[test]
fn fuse_mount_checks() {
    assert!(check_mount("/mnt", true, true, "/w", true, true).is_ok());
    assert_eq!(check_mount("/mnt", false, false, "/w", true, true).unwrap_err(), "Mount point \"/mnt\" does not exist");
    assert_eq!(check_mount("/mnt", true, false, "/w", true, true).unwrap_err(), "Mount point \"/mnt\" is not a directory");
    assert_eq!(check_mount("/mnt", true, true, "/w", false, false).unwrap_err(), "Workspace path \"/w\" does not exist");
    assert_eq!(check_mount("/mnt", true, true, "/w", true, false).unwrap_err(), "Workspace path \"/w\" is not a directory");
}

// ---- LSP client request table ----

#[test]
fn lsp_requests_get_increasing_ids_and_are_answered_once() {
    let mut t = RequestTable::new();
    assert_eq!(t.issue(), 1);
    assert_eq!(t.issue(), 2);
    assert!(t.is_pending(1) && t.is_pending(2));
    match t.route_incoming(true, Some(2), false, None, true, false) {
        IncomingAction::Deliver(2, ResponseKind::Success) => {}
        other => panic!("unexpected {:?}", other),
    }
    assert!(!t.is_pending(2));
    assert!(t.is_pending(1));
    match t.route_incoming(true, Some(2), false, None, true, false) {
        IncomingAction::Unmatched => {}
        other => panic!("unexpected {:?}", other),
    }
    match t.route_incoming(true, Some(1), true, Some("boom".to_string()), false, false) {
        IncomingAction::Deliver(1, ResponseKind::Failure(m)) => assert_eq!(m, "boom"),
        other => panic!("unexpected {:?}", other),
    }
    assert_eq!(t.issue(), 3);
}

#[test]
fn lsp_notifications_and_odd_messages() {
    let mut t = RequestTable::new();
    t.issue();
    assert!(matches!(t.route_incoming(false, None, false, None, false, true), IncomingAction::Notification));
    assert!(matches!(t.route_incoming(false, None, false, None, false, false), IncomingAction::Ignored));
    assert!(matches!(t.route_incoming(true, None, false, None, true, false), IncomingAction::Ignored));
    assert!(t.is_pending(1));
    assert!(t.remove(1));
    assert!(!t.remove(1));
}

#[test]
fn lsp_server_command_split() {
    let (program, args) = split_command(&vec!["rust-analyzer".to_string(), "--log".to_string(), "x".to_string()]).unwrap();
    assert_eq!(program, "rust-analyzer");
    assert_eq!(args, vec!["--log".to_string(), "x".to_string()]);
    match split_command(&vec![]) {
        Err(ServerError::Config { message }) => assert_eq!(message, "LSP server command cannot be empty"),
        other => panic!("unexpected {:?}", other),
    }
}

#[test]
fn rename_results() {
    let service = FileService::new("/proj");
    let report = ImportUpdateReport { imports_updated: 3, files_updated: 2 };
    let ok = service.rename_result("/proj/a.ts", "/proj/b.ts", false, Ok(report)).unwrap();
    assert!(ok.success);
    assert_eq!(ok.old_path, "/proj/a.ts");
    assert_eq!(ok.new_path, "/proj/b.ts");
    assert_eq!(ok.import_updates.unwrap().imports_updated, 3);
    assert!(ok.error.is_none());
    let partial = service
        .rename_result("/proj/a.ts", "/proj/b.ts", false, Err(ServerError::Internal("boom".to_string())))
        .unwrap();
    assert!(partial.success);
    assert!(partial.import_updates.is_none());
    assert_eq!(partial.error.unwrap(), "Import updates failed: Internal error: boom");
    match service.rename_result("/proj/a.ts", "/proj/b.ts", true, Err(ServerError::NotFound("x".to_string()))) {
        Err(ServerError::NotFound(m)) => assert_eq!(m, "x"),
        other => panic!("unexpected {:?}", other.is_ok()),
    }
}

#[test]
fn package_json_change_list() {
    let deps = Some(vec![("axios".to_string(), "\"^1.0.0\"".to_string()), ("react".to_string(), "\"^18.0.0\"".to_string())]);
    let scripts = Some(vec![("test".to_string(), "\"jest\"".to_string())]);
    let changes = package_json_changes(&deps, &None, &scripts, &Some(vec!["lodash".to_string()]), &Some("2.0.0".to_string()));
    assert_eq!(
        changes,
        vec![
            "Add dependency: axios @ \"^1.0.0\"".to_string(),
            "Add dependency: react @ \"^18.0.0\"".to_string(),
            "Add script: test = \"jest\"".to_string(),
            "Remove dependency: lodash".to_string(),
            "Update version to: 2.0.0".to_string(),
        ]
    );
    assert!(package_json_changes(&None, &None, &None, &None, &None).is_empty());
    let dev = Some(vec![("jest".to_string(), "\"29\"".to_string())]);
    assert_eq!(package_json_changes(&None, &dev, &None, &None, &None), vec!["Add dev dependency: jest @ \"29\"".to_string()]);
}

#[test]
fn create_file_answers() {
    let refused = create_file_result("a.ts", true, None, &Some("x".to_string()));
    assert!(!refused.success);
    assert_eq!(refused.message.unwrap(), "File already exists and overwrite is false");
    let made = create_file_result("a.ts", true, Some(true), &Some("héllo".to_string()));
    assert!(made.success);
    assert_eq!(made.operation, "create");
    assert_eq!(made.message.unwrap(), "Created with 6 bytes");
    assert_eq!(create_file_result("b.ts", false, None, &None).message.unwrap(), "Created with 0 bytes");
}

#[test]
fn identity_workspace_edit_changes_nothing() {
    let (text, count, _) = apply_workspace_edits("hello world", &vec![ws_edit(0, 0, 0, 5, Some("hello"))]);
    assert_eq!(text, "hello world");
    assert_eq!(count, 1);
}

#[test]
fn test_validate_position() {
    let source = "line 0\nline 1\nline 2";
    assert!(validate_position(source, 1, 3).is_ok());
    assert!(validate_position(source, 5, 0).is_err());
    assert!(validate_position(source, 0, 100).is_err());
}

#[test]
fn validate_position_counts_bytes() {
    assert!(validate_position("é", 0, 2).is_ok());
    assert_eq!(validate_position("é", 0, 3).unwrap_err(), "Column 3 is beyond line length 2");
}

#[test]
fn dispatch_answers_each_message() {
    let mut d = McpDispatcher::new();
    d.register_tool("find_definition");
    let req = |method: &str, params: Option<Result<String, String>>| McpMessageModel::Request {
        method: method.to_string(),
        params,
    };
    assert!(matches!(d.dispatch(&McpMessageModel::Response), Ok(DispatchPlan::PassResponse)));
    assert!(matches!(d.dispatch(&McpMessageModel::Notification), Ok(DispatchPlan::Acknowledge)));
    assert!(matches!(d.dispatch(&req("tools/list", None)), Ok(DispatchPlan::ListTools)));
    match d.dispatch(&req("tools/call", Some(Ok("find_definition".to_string())))) {
        Ok(DispatchPlan::CallTool(name)) => assert_eq!(name, "find_definition"),
        other => panic!("unexpected {:?}", other),
    }
    match d.dispatch(&req("tools/call", Some(Ok("nope".to_string())))) {
        Err(ServerError::Unsupported(m)) => assert_eq!(m, "Unknown tool: nope"),
        other => panic!("unexpected {:?}", other),
    }
    match d.dispatch(&req("tools/call", None)) {
        Err(ServerError::InvalidRequest(m)) => assert_eq!(m, "Missing params"),
        other => panic!("unexpected {:?}", other),
    }
    match d.dispatch(&req("tools/call", Some(Err("missing field `name`".to_string())))) {
        Err(ServerError::InvalidRequest(m)) => assert_eq!(m, "Invalid tool call: missing field `name`"),
        other => panic!("unexpected {:?}", other),
    }
    match d.dispatch(&req("resources/list", None)) {
        Err(ServerError::Unsupported(m)) => assert_eq!(m, "Unknown method: resources/list"),
        other => panic!("unexpected {:?}", other),
    }
}

#[test]
fn editing_arguments_and_replies() {
    assert_eq!(required_file_path(Some("/p/a.ts")).unwrap(), "/p/a.ts");
    match required_file_path(None) {
        Err(ServerError::InvalidRequest(m)) => assert_eq!(m, "Missing file_path"),
        other => panic!("unexpected {:?}", other),
    }
    match organize_imports_reply(None) {
        Err(ServerError::Runtime { message }) => assert_eq!(message, "LSP returned invalid code actions format"),
        other => panic!("unexpected {:?}", other),
    }
    assert_eq!(organize_imports_reply(Some(&vec![])).unwrap(), OrganizeImportsOutcome::NothingToDo);
    assert_eq!(organize_imports_reply(Some(&vec![false, true])).unwrap(), OrganizeImportsOutcome::SingleEdit(1));
    assert_eq!(
        organize_imports_reply(Some(&vec![true, false, true])).unwrap(),
        OrganizeImportsOutcome::Combined(vec![0, 2])
    );
}
