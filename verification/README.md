# codebuddy

A verified core for a code-navigation and refactoring server, written in
Verus. `src/` holds the library: text scanning, literal extraction, import
analysis for several languages, refactoring plans (extract constant,
variable and function; inline variable), manifest and configuration handling,
the decisions of the MCP tool handlers, the LSP request table and the FUSE
inode table. Calls into outside crates (regex, url, chrono, which, dirs,
serde_json error types, syn's Rust parser, swc's TypeScript parser,
rustpython's Python parser) stand behind small trusted
wrappers whose contracts say what the crates document.

`app/` is the program around it: argument parsing, file and network I/O, the
language-server process, the FUSE mount, and the syntax-tree walk that
implements swc's `Visit` trait. `tests/` exercises the library through its public interface.
