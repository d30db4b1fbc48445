//! Whether swc's TypeScript parser accepts a source text as a module.

use vstd::prelude::*;

verus! {

/// What swc's `Parser::parse_module` reports for `source`, parsed as
/// TypeScript (TSX when `tsx`) with decorators off, early errors off and
/// JSX-like ambiguity disallowed, the file registered twice in a fresh source
/// map under `file_path`: `None` when it parses, else the error's debug text.
pub uninterp spec fn ts_module_error(source: Seq<char>, file_path: Seq<char>, tsx: bool) -> Option<Seq<char>>;

/// What swc's `Parser::parse_module` reports for `source`, parsed as
/// TypeScript (TSX when `tsx`) with decorators on and the other options at
/// their defaults, the file registered once in a fresh source map under
/// `file_path`: `None` when it parses, else the error's debug text.
pub uninterp spec fn ts_decorated_module_error(source: Seq<char>, file_path: Seq<char>, tsx: bool) -> Option<Seq<char>>;

/// Calls `swc_ecma_parser::Parser::parse_module` in the first configuration
/// above. The outcome is named, not described; the parser's recovered errors
/// are not looked at.
#[verifier::external_body]
pub(crate) fn parse_ts_module(source: &str, file_path: &str, tsx: bool) -> (r: Option<String>)
    ensures
        match r {
            Some(e) => ts_module_error(source@, file_path@, tsx) == Some(e@),
            None => ts_module_error(source@, file_path@, tsx) is None,
        },
{
    let cm: swc_common::sync::Lrc<swc_common::SourceMap> = Default::default();
    cm.new_source_file(swc_common::FileName::Real(file_path.into()).into(), source.to_string());
    let fm = cm.new_source_file(swc_common::FileName::Real(file_path.into()).into(), source.to_string());
    let syntax = swc_ecma_parser::Syntax::Typescript(swc_ecma_parser::TsSyntax {
        tsx, decorators: false, dts: false, no_early_errors: true, disallow_ambiguous_jsx_like: true,
    });
    let lexer = swc_ecma_parser::Lexer::new(syntax, Default::default(), swc_ecma_parser::StringInput::from(&*fm), None);
    swc_ecma_parser::Parser::new_from(lexer).parse_module().err().map(|e| format!("{:?}", e))
}

/// Calls `swc_ecma_parser::Parser::parse_module` in the second configuration
/// above. The outcome is named, not described; the parser's recovered errors
/// are not looked at.
#[verifier::external_body]
pub(crate) fn parse_decorated_ts_module(source: &str, file_path: &str, tsx: bool) -> (r: Option<String>)
    ensures
        match r {
            Some(e) => ts_decorated_module_error(source@, file_path@, tsx) == Some(e@),
            None => ts_decorated_module_error(source@, file_path@, tsx) is None,
        },
{
    let cm: swc_common::sync::Lrc<swc_common::SourceMap> = Default::default();
    let fm = cm.new_source_file(swc_common::FileName::Real(file_path.into()).into(), source.to_string());
    let syntax = swc_ecma_parser::Syntax::Typescript(swc_ecma_parser::TsSyntax {
        tsx, decorators: true, ..Default::default()
    });
    let lexer = swc_ecma_parser::Lexer::new(syntax, Default::default(), swc_ecma_parser::StringInput::from(&*fm), None);
    swc_ecma_parser::Parser::new_from(lexer).parse_module().err().map(|e| format!("{:?}", e))
}

} // verus!
