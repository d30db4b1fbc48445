//! The built-in MCP server presets.

use vstd::prelude::*;
use crate::text::{str_chars, chars_to_string, chars_eq};

verus! {

fn owned(t: &str) -> (s: String)
    ensures
        s@ == t@,
{
    chars_to_string(&str_chars(t))
}

/// A server that can be started from its preset.
#[derive(Debug, Clone)]
pub struct McpPreset {
    pub id: String,
    pub name: String,
    pub description: String,
    pub command: Vec<String>,
    /// Environment variables set for the server, as name and value.
    pub env: Vec<(String, String)>,
    pub auto_start: bool,
}

/// The identifiers of the built-in presets, in order.
pub open spec fn preset_ids() -> Seq<Seq<char>> {
    seq!["context7"@, "git"@, "filesystem"@]
}

/// The views of a vector of strings.
pub open spec fn views(v: Seq<String>) -> Seq<Seq<char>> {
    v.map_values(|s: String| s@)
}

/// The position of identifier `id` among the built-in presets, or -1.
pub open spec fn preset_index(id: Seq<char>) -> int {
    if id == "context7"@ {
        0
    } else if id == "git"@ {
        1
    } else if id == "filesystem"@ {
        2
    } else {
        -1
    }
}

/// `p` is built-in preset number `k`.
pub open spec fn is_builtin_preset(p: McpPreset, k: int) -> bool {
    &&& 0 <= k < 3
    &&& p.id@ == preset_ids()[k]
    &&& p.env@.len() == 0
    &&& p.auto_start
    &&& (k == 0 ==> p.name@ == "Context7"@
        && p.description@ == "Up-to-date documentation for any library"@
        && views(p.command@) == seq!["npx"@, "-y"@, "@upstash/context7-mcp"@])
    &&& (k == 1 ==> p.name@ == "Git MCP"@
        && p.description@ == "Git operations and history"@
        && views(p.command@) == seq!["npx"@, "-y"@, "@modelcontextprotocol/server-git"@])
    &&& (k == 2 ==> p.name@ == "Filesystem MCP"@
        && p.description@ == "Enhanced filesystem operations"@
        && views(p.command@) == seq!["npx"@, "-y"@, "@modelcontextprotocol/server-filesystem"@, "."@])
}

fn command_of(parts: &[&str]) -> (r: Vec<String>)
    ensures
        views(r@) == parts@.map_values(|s: &str| s@),
{
    let mut out: Vec<String> = Vec::new();
    let mut i: usize = 0;
    while i < parts.len()
        invariant
            i <= parts@.len(),
            views(out@) == parts@.subrange(0, i as int).map_values(|s: &str| s@),
        decreases parts@.len() - i,
    {
        let ghost o = views(out@);
        out.push(owned(parts[i]));
        assert(views(out@) =~= o.push(parts@[i as int]@));
        assert(parts@.subrange(0, i + 1).map_values(|s: &str| s@)
            =~= parts@.subrange(0, i as int).map_values(|s: &str| s@).push(parts@[i as int]@));
        i = i + 1;
    }
    assert(parts@.subrange(0, parts@.len() as int) =~= parts@);
    out
}

fn preset(id: &str, name: &str, description: &str, command: &[&str]) -> (r: McpPreset)
    ensures
        r.id@ == id@,
        r.name@ == name@,
        r.description@ == description@,
        views(r.command@) == command@.map_values(|s: &str| s@),
        r.env@.len() == 0,
        r.auto_start,
{
    McpPreset {
        id: owned(id),
        name: owned(name),
        description: owned(description),
        command: command_of(command),
        env: Vec::new(),
        auto_start: true,
    }
}

fn copy_strings(v: &Vec<String>) -> (r: Vec<String>)
    ensures
        views(r@) == views(v@),
{
    let mut out: Vec<String> = Vec::new();
    let mut i: usize = 0;
    while i < v.len()
        invariant
            i <= v@.len(),
            views(out@) == views(v@).subrange(0, i as int),
        decreases v@.len() - i,
    {
        let ghost o = views(out@);
        out.push(owned(v[i].as_str()));
        assert(views(out@) =~= o.push(v@[i as int]@));
        assert(views(v@).subrange(0, i + 1) =~= views(v@).subrange(0, i as int).push(v@[i as int]@));
        i = i + 1;
    }
    assert(views(v@).subrange(0, v@.len() as int) =~= views(v@));
    out
}

fn copy_preset(p: &McpPreset) -> (r: McpPreset)
    requires
        p.env@.len() == 0,
    ensures
        r.id@ == p.id@,
        r.name@ == p.name@,
        r.description@ == p.description@,
        views(r.command@) == views(p.command@),
        r.env@.len() == 0,
        r.auto_start == p.auto_start,
{
    McpPreset {
        id: owned(p.id.as_str()),
        name: owned(p.name.as_str()),
        description: owned(p.description.as_str()),
        command: copy_strings(&p.command),
        env: Vec::new(),
        auto_start: p.auto_start,
    }
}

/// All built-in presets, in order.
pub fn get_presets() -> (r: Vec<McpPreset>)
    ensures
        r@.len() == 3,
        forall|k: int| 0 <= k < 3 ==> is_builtin_preset(#[trigger] r@[k], k),
{
    let c1 = ["npx", "-y", "@upstash/context7-mcp"];
    let c2 = ["npx", "-y", "@modelcontextprotocol/server-git"];
    let c3 = ["npx", "-y", "@modelcontextprotocol/server-filesystem", "."];
    assert(c1@.map_values(|s: &str| s@) =~= seq!["npx"@, "-y"@, "@upstash/context7-mcp"@]);
    assert(c2@.map_values(|s: &str| s@) =~= seq!["npx"@, "-y"@, "@modelcontextprotocol/server-git"@]);
    assert(c3@.map_values(|s: &str| s@) =~= seq!["npx"@, "-y"@, "@modelcontextprotocol/server-filesystem"@, "."@]);
    let mut out: Vec<McpPreset> = Vec::new();
    out.push(preset("context7", "Context7", "Up-to-date documentation for any library", &c1));
    out.push(preset("git", "Git MCP", "Git operations and history", &c2));
    out.push(preset("filesystem", "Filesystem MCP", "Enhanced filesystem operations", &c3));
    out
}

/// The built-in preset with identifier `id`, if there is one.
pub fn get_preset(id: &str) -> (r: Option<McpPreset>)
    ensures
        match r {
            Some(p) => is_builtin_preset(p, preset_index(id@)),
            None => preset_index(id@) < 0,
        },
{
    let all = get_presets();
    let want = str_chars(id);
    let mut i: usize = 0;
    while i < all.len()
        invariant
            i <= 3,
            all@.len() == 3,
            want@ == id@,
            forall|k: int| 0 <= k < 3 ==> is_builtin_preset(#[trigger] all@[k], k),
            forall|k: int| 0 <= k < i ==> preset_ids()[k] != id@,
        decreases 3 - i,
    {
        let p = &all[i];
        assert(is_builtin_preset(all@[i as int], i as int));
        let pid = str_chars(p.id.as_str());
        if chars_eq(&pid, &want) {
            let r = copy_preset(p);
            assert(is_builtin_preset(r, i as int));
            assert(preset_ids()[i as int] == id@);
            proof {
                reveal_strlit("context7");
                reveal_strlit("git");
                reveal_strlit("filesystem");
            }
            assert(preset_index(id@) == i as int);
            return Some(r);
        }
        i = i + 1;
    }
    assert(preset_ids()[0] != id@ && preset_ids()[1] != id@ && preset_ids()[2] != id@);
    None
}

/// The identifiers of the built-in presets.
pub fn list_preset_ids() -> (r: Vec<String>)
    ensures
        views(r@) == preset_ids(),
{
    let all = get_presets();
    let mut out: Vec<String> = Vec::new();
    let mut i: usize = 0;
    while i < all.len()
        invariant
            i <= 3,
            all@.len() == 3,
            forall|k: int| 0 <= k < 3 ==> is_builtin_preset(#[trigger] all@[k], k),
            views(out@) == preset_ids().subrange(0, i as int),
        decreases 3 - i,
    {
        assert(is_builtin_preset(all@[i as int], i as int));
        let ghost o = views(out@);
        out.push(owned(all[i].id.as_str()));
        assert(views(out@) =~= o.push(preset_ids()[i as int]));
        assert(preset_ids().subrange(0, i + 1) =~= preset_ids().subrange(0, i as int).push(preset_ids()[i as int]));
        i = i + 1;
    }
    assert(preset_ids().subrange(0, 3) =~= preset_ids());
    out
}


/// Every listed preset identifier finds its own preset, and the identifiers
/// are distinct.
pub proof fn law_listed_presets_are_found()
    ensures
        forall|k: int| 0 <= k < 3 ==> preset_index(#[trigger] preset_ids()[k]) == k,
        preset_ids().no_duplicates(),
{
    reveal_strlit("context7");
    reveal_strlit("git");
    reveal_strlit("filesystem");
    assert(preset_ids()[0] == "context7"@);
    assert(preset_ids()[1] == "git"@);
    assert(preset_ids()[2] == "filesystem"@);
    assert("git"@ != "context7"@);
    assert("filesystem"@ != "context7"@ && "filesystem"@ != "git"@);
    assert(preset_index(preset_ids()[0]) == 0);
    assert(preset_index(preset_ids()[1]) == 1);
    assert(preset_index(preset_ids()[2]) == 2);
}


/// An external MCP server entry of the configuration.
#[derive(Debug, Clone)]
pub struct ExternalMcpServerConfig {
    pub name: String,
    pub command: Vec<String>,
    /// Environment variables, when there are any.
    pub env: Option<Vec<(String, String)>>,
    pub auto_start: bool,
}

/// The names of the configured servers.
pub open spec fn server_names(v: Seq<ExternalMcpServerConfig>) -> Seq<Seq<char>> {
    v.map_values(|s: ExternalMcpServerConfig| s.name@)
}

/// The configured server names after adding preset `id`: unchanged when no
/// such preset exists or a server of that name is configured, else the
/// preset's identifier is added last.
pub open spec fn names_after_add(names: Seq<Seq<char>>, id: Seq<char>) -> Seq<Seq<char>> {
    if preset_index(id) < 0 || names.contains(id) {
        names
    } else {
        names.push(id)
    }
}

/// Adds built-in preset `preset_id` to the configured servers, unless a
/// server of that name is configured already. Gives whether it was added
/// and the preset's display name.
pub fn add_preset(servers: &mut Vec<ExternalMcpServerConfig>, preset_id: &str) -> (r: Result<(bool, String), String>)
    ensures
        server_names(final(servers)@) == names_after_add(server_names(old(servers)@), preset_id@),
        forall|k: int| 0 <= k < old(servers)@.len() ==> final(servers)@[k] == old(servers)@[k],
        preset_index(preset_id@) < 0 ==> (r matches Err(m) && m@ == "Preset '"@ + preset_id@
            + "' not found. Run 'codebuddy mcp list' to see available presets."@),
        preset_index(preset_id@) >= 0 ==> (r matches Ok((added, name)) && added == !server_names(old(servers)@).contains(preset_id@)
            && (exists|p: McpPreset| is_builtin_preset(p, preset_index(preset_id@)) && name@ == p.name@)),
        (preset_index(preset_id@) >= 0 && !server_names(old(servers)@).contains(preset_id@)) ==> ({
            let s = final(servers)@[old(servers)@.len() as int];
            &&& final(servers)@.len() == old(servers)@.len() + 1
            &&& s.name@ == preset_id@
            &&& s.env is None
            &&& s.auto_start
            &&& exists|p: McpPreset| is_builtin_preset(p, preset_index(preset_id@)) && views(s.command@) == views(p.command@)
        }),
{
    let preset = match get_preset(preset_id) {
        Some(p) => p,
        None => {
            let mut m = str_chars("Preset '");
            crate::text::append_str(&mut m, preset_id);
            crate::text::append_str(&mut m, "' not found. Run 'codebuddy mcp list' to see available presets.");
            return Err(chars_to_string(&m));
        },
    };
    proof {
        reveal_strlit("context7");
        reveal_strlit("git");
        reveal_strlit("filesystem");
    }
    assert(preset.id@ == preset_id@);
    let want = str_chars(preset.id.as_str());
    let mut i: usize = 0;
    while i < servers.len()
        invariant
            i <= servers@.len(),
            want@ == preset_id@,
            servers@ == old(servers)@,
            preset_index(preset_id@) >= 0,
            is_builtin_preset(preset, preset_index(preset_id@)),
            forall|k: int| 0 <= k < i ==> server_names(servers@)[k] != preset_id@,
        decreases servers@.len() - i,
    {
        let n = str_chars(servers[i].name.as_str());
        if chars_eq(&n, &want) {
            assert(server_names(servers@)[i as int] == preset_id@);
            assert(server_names(servers@).contains(preset_id@));
            return Ok((false, owned(preset.name.as_str())));
        }
        i = i + 1;
    }
    assert(!server_names(servers@).contains(preset_id@)) by {
        if server_names(servers@).contains(preset_id@) {
            let k = choose|k: int| 0 <= k < server_names(servers@).len() && server_names(servers@)[k] == preset_id@;
            assert(server_names(servers@)[k] != preset_id@);
        }
    }
    let ghost o = servers@;
    let env: Option<Vec<(String, String)>> = if preset.env.len() == 0 { None } else { Some(preset.env.clone()) };
    servers.push(ExternalMcpServerConfig {
        name: owned(preset.id.as_str()),
        command: copy_strings(&preset.command),
        env,
        auto_start: preset.auto_start,
    });
    assert(server_names(servers@) =~= server_names(o).push(preset_id@));
    Ok((true, owned(preset.name.as_str())))
}

/// Adding a preset a second time changes nothing: the first time puts its
/// name among the configured servers (if the preset exists), and a preset
/// whose name is configured is not added again.
pub proof fn law_add_preset_idempotent(names: Seq<Seq<char>>, id: Seq<char>)
    ensures
        names_after_add(names_after_add(names, id), id) == names_after_add(names, id),
        preset_index(id) >= 0 ==> names_after_add(names, id).contains(id),
{
    if preset_index(id) >= 0 && !names.contains(id) {
        assert(names.push(id)[names.len() as int] == id);
    }
}

} // verus!
