//! MCP servers: which servers a project declares, which of them are
//! disabled, and which server a tool call belongs to.
use vstd::prelude::*;
use crate::agent::AgentType;
use crate::json::{json_field_keys, json_object_keys, toml_field_keys, toml_table_keys};
use crate::pr::find;
use crate::sort::{sort_texts, sorted_texts};
use crate::text::{chars_of, chars_start_with, starts_with, string_from_chars, string_from_str, push_str, views, text_equals};

verus! {

/// The text before the first occurrence of `pat` (`s.split(pat).next()`).
pub open spec fn before_first(s: Seq<char>, pat: Seq<char>) -> Seq<char> {
    match find(s, pat) {
        Some(i) => s.take(i as int),
        None => s,
    }
}

/// The server of an MCP tool name written `mcp__server__tool`,
/// `mcp:server:tool` or `mcp/server/tool`.
pub open spec fn mcp_server_of(tool: Seq<char>) -> Option<Seq<char>> {
    if starts_with(tool, "mcp__"@) {
        Some(before_first(tool.skip(5), "__"@))
    } else if starts_with(tool, "mcp:"@) {
        Some(before_first(tool.skip(4), ":"@))
    } else if starts_with(tool, "mcp/"@) {
        Some(before_first(tool.skip(4), "/"@))
    } else {
        None
    }
}

/// Every underscore of `s` is followed, within `s`, by another character:
/// `s` holds no `__` and does not end with `_`.
pub open spec fn no_double_underscore(s: Seq<char>) -> bool {
    forall|i: int| 0 <= i < s.len() && #[trigger] s[i] == '_' ==> i + 1 < s.len() && s[i + 1] != '_'
}

/// `s` does not hold the character `c`.
pub open spec fn lacks(s: Seq<char>, c: char) -> bool {
    forall|i: int| 0 <= i < s.len() ==> #[trigger] s[i] != c
}

proof fn lemma_find_double(a: Seq<char>, b: Seq<char>)
    requires
        no_double_underscore(a),
    ensures
        find(a + "__"@ + b, "__"@) == Some(a.len()),
    decreases a.len(),
{
    reveal_strlit("__");
    let w = a + "__"@ + b;
    if a.len() == 0 {
        assert(w.take(2) =~= "__"@);
    } else {
        assert(w[0] == a[0]);
        if a[0] == '_' {
            assert(a[0] == '_');
            assert(w[1] == a[1]);
            assert(w.take(2)[1] != "__"@[1]);
        } else {
            assert(w.take(2)[0] != "__"@[0]);
        }
        let a1 = a.drop_first();
        assert forall|i: int| 0 <= i < a1.len() && #[trigger] a1[i] == '_' implies i + 1 < a1.len() && a1[i + 1] != '_' by {
            assert(a1[i] == a[i + 1]);
            let j = i + 1;
            assert(0 <= j < a.len() && a[j] == '_');
            assert(j + 1 < a.len() && a[j + 1] != '_');
            assert(a1[i + 1] == a[j + 1]);
        }
        assert(no_double_underscore(a1));
        lemma_find_double(a1, b);
        assert(w.drop_first() =~= a1 + "__"@ + b);
    }
}

proof fn lemma_find_single(a: Seq<char>, c: char, b: Seq<char>)
    requires
        lacks(a, c),
    ensures
        find(a + seq![c] + b, seq![c]) == Some(a.len()),
    decreases a.len(),
{
    let w = a + seq![c] + b;
    if a.len() == 0 {
        assert(w.take(1) =~= seq![c]);
    } else {
        assert(w[0] == a[0]);
        assert(w.take(1)[0] != c);
        let a1 = a.drop_first();
        assert forall|i: int| 0 <= i < a1.len() implies #[trigger] a1[i] != c by {
            assert(a1[i] == a[i + 1]);
        }
        lemma_find_single(a1, c, b);
        assert(w.drop_first() =~= a1 + seq![c] + b);
    }
}

/// The server of an MCP tool name is the part between the prefix and the
/// first separator: `mcp__S__T` belongs to `S` when `S` holds no `__` and
/// does not end with `_` (single underscores are part of the name), and
/// `mcp:S:T` and `mcp/S/T` belong to `S` when `S` holds no separator. A
/// name that does not start with `mcp` belongs to no server.
pub proof fn lemma_mcp_server_named(server: Seq<char>, tool: Seq<char>, name: Seq<char>)
    ensures
        no_double_underscore(server) ==> mcp_server_of("mcp__"@ + server + "__"@ + tool) == Some(server),
        lacks(server, ':') ==> mcp_server_of("mcp:"@ + server + ":"@ + tool) == Some(server),
        lacks(server, '/') ==> mcp_server_of("mcp/"@ + server + "/"@ + tool) == Some(server),
        !(name.len() >= 3 && name[0] == 'm' && name[1] == 'c' && name[2] == 'p') ==> mcp_server_of(name) is None,
{
    reveal_strlit("mcp__");
    reveal_strlit("mcp:");
    reveal_strlit("mcp/");
    reveal_strlit("__");
    reveal_strlit(":");
    reveal_strlit("/");
    if no_double_underscore(server) {
        let t = "mcp__"@ + server + "__"@ + tool;
        assert(t.take(5) =~= "mcp__"@);
        assert(t.skip(5) =~= server + "__"@ + tool);
        lemma_find_double(server, tool);
        assert((server + "__"@ + tool).take(server.len() as int) =~= server);
    }
    if lacks(server, ':') {
        let t = "mcp:"@ + server + ":"@ + tool;
        assert(!starts_with(t, "mcp__"@)) by {
            if t.len() >= 5 {
                assert(t.take(5)[3] != "mcp__"@[3]);
            }
        }
        assert(t.take(4) =~= "mcp:"@);
        assert(t.skip(4) =~= server + seq![':'] + tool);
        assert(":"@ =~= seq![':']);
        lemma_find_single(server, ':', tool);
        assert((server + seq![':'] + tool).take(server.len() as int) =~= server);
    }
    if lacks(server, '/') {
        let t = "mcp/"@ + server + "/"@ + tool;
        assert(!starts_with(t, "mcp__"@)) by {
            if t.len() >= 5 {
                assert(t.take(5)[3] != "mcp__"@[3]);
            }
        }
        assert(!starts_with(t, "mcp:"@)) by {
            assert(t.take(4)[3] != "mcp:"@[3]);
        }
        assert(t.take(4) =~= "mcp/"@);
        assert(t.skip(4) =~= server + seq!['/'] + tool);
        assert("/"@ =~= seq!['/']);
        lemma_find_single(server, '/', tool);
        assert((server + seq!['/'] + tool).take(server.len() as int) =~= server);
    }
    if !(name.len() >= 3 && name[0] == 'm' && name[1] == 'c' && name[2] == 'p') {
        if name.len() >= 3 {
            assert(starts_with(name, "mcp__"@) ==> name.take(5)[0] == 'm' && name.take(5)[1] == 'c' && name.take(5)[2] == 'p');
            assert(starts_with(name, "mcp:"@) ==> name.take(4)[0] == 'm' && name.take(4)[1] == 'c' && name.take(4)[2] == 'p');
            assert(starts_with(name, "mcp/"@) ==> name.take(4)[0] == 'm' && name.take(4)[1] == 'c' && name.take(4)[2] == 'p');
        }
    }
}

fn text_before(s: &Vec<char>, from: usize, pat: &Vec<char>) -> (r: String)
    requires
        from <= s.len(),
        pat.len() > 0,
    ensures
        r@ == before_first(s@.skip(from as int), pat@),
{
    let mut tail: Vec<char> = Vec::new();
    let mut j: usize = from;
    while j < s.len()
        invariant
            from <= j <= s.len(),
            tail@ == s@.subrange(from as int, j as int),
        decreases s.len() - j,
    {
        tail.push(s[j]);
        j = j + 1;
        assert(tail@ =~= s@.subrange(from as int, j as int));
    }
    assert(tail@ =~= s@.skip(from as int));
    let mut i: usize = 0;
    assert(tail@.skip(0) =~= tail@);
    while i < tail.len()
        invariant
            i <= tail.len(),
            pat.len() > 0,
            tail@ == s@.skip(from as int),
            find(tail@, pat@) == (match find(tail@.skip(i as int), pat@) {
                Some(k) => Some((k + i) as nat),
                None => None::<nat>,
            }),
            forall|k: int| 0 <= k < i ==> !(tail@.skip(k).len() >= pat@.len() && tail@.skip(k).take(pat@.len() as int) == pat@),
        decreases tail.len() - i,
    {
        if crate::text::chars_match_at(&tail, i, pat) {
            return crate::text::string_from_prefix(tail.as_slice(), i);
        }
        assert(tail@.skip(i as int).drop_first() =~= tail@.skip(i + 1));
        i = i + 1;
    }
    proof {
        assert(tail@.skip(i as int).len() == 0);
        assert(!(tail@.skip(i as int).len() >= pat@.len()));
    }
    string_from_chars(tail.as_slice())
}

/// The server an MCP tool name belongs to.
pub fn extract_mcp_server_name(tool: &str) -> (r: Option<String>)
    ensures
        match r {
            Some(s) => mcp_server_of(tool@) == Some(s@),
            None => mcp_server_of(tool@).is_none(),
        },
{
    let t = chars_of(tool);
    let p1 = chars_of("mcp__");
    let p2 = chars_of("mcp:");
    let p3 = chars_of("mcp/");
    let s1 = chars_of("__");
    let s2 = chars_of(":");
    let s3 = chars_of("/");
    proof {
        reveal_strlit("mcp__");
        reveal_strlit("mcp:");
        reveal_strlit("mcp/");
        reveal_strlit("__");
        reveal_strlit(":");
        reveal_strlit("/");
    }
    if chars_start_with(&t, &p1) {
        return Some(text_before(&t, 5, &s1));
    }
    if chars_start_with(&t, &p2) {
        return Some(text_before(&t, 4, &s2));
    }
    if chars_start_with(&t, &p3) {
        return Some(text_before(&t, 4, &s3));
    }
    None
}

/// Whether a tool name is an MCP tool name.
pub fn is_claude_mcp_tool_name(tool: &str) -> (b: bool)
    ensures
        b == (starts_with(tool@, "mcp__"@) || starts_with(tool@, "mcp:"@) || starts_with(tool@, "mcp/"@)),
{
    let t = chars_of(tool);
    let p1 = chars_of("mcp__");
    let p2 = chars_of("mcp:");
    let p3 = chars_of("mcp/");
    proof {
        reveal_strlit("mcp__");
        reveal_strlit("mcp:");
        reveal_strlit("mcp/");
    }
    chars_start_with(&t, &p1) || chars_start_with(&t, &p2) || chars_start_with(&t, &p3)
}

/// The servers disabled for a workspace: its own list when it has one,
/// otherwise its repository's.
pub fn resolve_disabled_servers(repo_disabled: &Vec<String>, workspace_disabled: &Option<Vec<String>>) -> (r: Vec<String>)
    ensures
        views(r@) == match workspace_disabled {
            Some(w) => views(w@),
            None => views(repo_disabled@),
        },
{
    match workspace_disabled {
        Some(w) => clone_texts(w),
        None => clone_texts(repo_disabled),
    }
}

fn clone_texts(v: &Vec<String>) -> (r: Vec<String>)
    ensures
        views(r@) == views(v@),
{
    let mut r: Vec<String> = Vec::new();
    let mut i: usize = 0;
    while i < v.len()
        invariant
            i <= v.len(),
            views(r@) == views(v@).take(i as int),
        decreases v.len() - i,
    {
        let item = v[i].clone();
        let ghost before = views(r@);
        r.push(item);
        assert(views(r@) =~= before.push(v@[i as int]@));
        assert(views(v@).take(i + 1) =~= views(v@).take(i as int).push(v@[i as int]@));
        i = i + 1;
    }
    assert(views(v@).take(v.len() as int) =~= views(v@));
    r
}

/// Where a project declares an MCP server.
#[derive(PartialEq, Eq, Structural, Clone, Copy, Debug)]
pub enum McpSource {
    /// `.codex/config.toml`, table `mcp_servers`.
    Codex,
    /// `.mcp.json`, object `mcpServers`.
    McpJson,
}

/// A declared MCP server.
pub struct McpServer {
    pub name: String,
    pub source: McpSource,
    pub enabled: bool,
}

/// The server names of a document's key list, sorted, or none when the
/// document does not hold the list.
pub open spec fn sorted_names_of(keys: Option<Seq<Seq<char>>>, names: Seq<Seq<char>>) -> bool {
    &&& sorted_texts(names)
    &&& names.to_multiset() == (match keys {
        Some(k) => k,
        None => Seq::empty(),
    }).to_multiset()
}

/// The servers of a Codex project configuration, sorted by name; none when
/// the text does not parse or has no `mcp_servers` table.
pub fn codex_config_servers(contents: &str) -> (r: Vec<String>)
    ensures
        sorted_names_of(toml_table_keys(contents@, "mcp_servers"@), views(r@)),
{
    let key = "mcp_servers";
    proof {
        reveal_strlit("mcp_servers");
    }
    match toml_field_keys(contents, key) {
        Some(names) => sort_texts(names),
        None => {
            let v: Vec<String> = Vec::new();
            assert(views(v@) =~= Seq::<Seq<char>>::empty());
            v
        },
    }
}

/// The servers of a project's `.mcp.json`, sorted by name; none when the
/// text does not parse or has no `mcpServers` object.
pub fn mcp_json_servers(contents: &str) -> (r: Vec<String>)
    ensures
        sorted_names_of(json_object_keys(contents@, "mcpServers"@), views(r@)),
{
    let key = "mcpServers";
    proof {
        reveal_strlit("mcpServers");
    }
    match json_field_keys(contents, key) {
        Some(names) => sort_texts(names),
        None => {
            let v: Vec<String> = Vec::new();
            assert(views(v@) =~= Seq::<Seq<char>>::empty());
            v
        },
    }
}

pub open spec fn server_names(v: Seq<McpServer>) -> Seq<Seq<char>> {
    v.map_values(|s: McpServer| s.name@)
}

/// Every server a project declares, enabled: the Codex ones first, then
/// those of `.mcp.json`. A missing file is passed as `None`.
pub fn detect_all_mcp_servers(codex_config: Option<&str>, mcp_json: Option<&str>) -> (r: Vec<McpServer>)
    ensures
        exists|a: Seq<Seq<char>>, b: Seq<Seq<char>>|
            {
                &&& server_names(r@) == a + b
                &&& (match codex_config {
                    Some(t) => sorted_names_of(toml_table_keys(t@, "mcp_servers"@), a),
                    None => a.len() == 0,
                })
                &&& (match mcp_json {
                    Some(t) => sorted_names_of(json_object_keys(t@, "mcpServers"@), b),
                    None => b.len() == 0,
                })
                &&& forall|i: int| 0 <= i < r@.len() ==> (#[trigger] r@[i]).enabled && (r@[i].source == McpSource::Codex <==> i < a.len())
            },
{
    let codex: Vec<String> = match codex_config {
        Some(t) => codex_config_servers(t),
        None => Vec::new(),
    };
    let json: Vec<String> = match mcp_json {
        Some(t) => mcp_json_servers(t),
        None => Vec::new(),
    };
    let ghost a = views(codex@);
    let ghost b = views(json@);
    let mut out: Vec<McpServer> = Vec::new();
    let mut i: usize = 0;
    while i < codex.len()
        invariant
            i <= codex.len(),
            a == views(codex@),
            server_names(out@) == a.take(i as int),
            forall|k: int| 0 <= k < out@.len() ==> (#[trigger] out@[k]).enabled && out@[k].source == McpSource::Codex,
        decreases codex.len() - i,
    {
        let name = codex[i].clone();
        let ghost before = server_names(out@);
        out.push(McpServer { name, source: McpSource::Codex, enabled: true });
        assert(server_names(out@) =~= before.push(a[i as int]));
        assert(a.take(i + 1) =~= a.take(i as int).push(a[i as int]));
        i = i + 1;
    }
    assert(a.take(codex.len() as int) =~= a);
    let mut j: usize = 0;
    while j < json.len()
        invariant
            j <= json.len(),
            a == views(codex@),
            b == views(json@),
            server_names(out@) == a + b.take(j as int),
            out@.len() == a.len() + j,
            forall|k: int| 0 <= k < out@.len() ==> (#[trigger] out@[k]).enabled && (out@[k].source == McpSource::Codex <==> k < a.len()),
        decreases json.len() - j,
    {
        let name = json[j].clone();
        let ghost before = server_names(out@);
        out.push(McpServer { name, source: McpSource::McpJson, enabled: true });
        assert(server_names(out@) =~= before.push(b[j as int]));
        assert(a + b.take(j + 1) =~= (a + b.take(j as int)).push(b[j as int]));
        j = j + 1;
    }
    assert(b.take(json.len() as int) =~= b);
    proof {
        assert(server_names(out@) == a + b);
        match codex_config {
            Some(t) => {},
            None => { assert(a.len() == 0); },
        }
    }
    out
}

/// The Codex servers to switch off for a session: those of the project that
/// the effective disabled list names, in the project's order.
pub open spec fn disabled_among(detected: Seq<Seq<char>>, disabled: Seq<Seq<char>>) -> Seq<Seq<char>>
    decreases detected.len(),
{
    if detected.len() == 0 {
        Seq::empty()
    } else {
        let r = disabled_among(detected.drop_last(), disabled);
        if disabled.contains(detected.last()) {
            r.push(detected.last())
        } else {
            r
        }
    }
}

fn contains_text(v: &Vec<String>, t: &str) -> (b: bool)
    ensures
        b == views(v@).contains(t@),
{
    let mut i: usize = 0;
    while i < v.len()
        invariant
            i <= v.len(),
            forall|k: int| 0 <= k < i ==> v@[k]@ != t@,
        decreases v.len() - i,
    {
        if text_equals(v[i].as_str(), t) {
            assert(views(v@)[i as int] == t@);
            return true;
        }
        i = i + 1;
    }
    proof {
        if views(v@).contains(t@) {
            let k = choose|k: int| 0 <= k < views(v@).len() && views(v@)[k] == t@;
            assert(v@[k]@ == t@);
        }
    }
    false
}

/// Picks the detected Codex servers that the disabled list names.
pub fn disabled_codex_servers(detected: &Vec<String>, disabled: &Vec<String>) -> (r: Vec<String>)
    ensures
        views(r@) == disabled_among(views(detected@), views(disabled@)),
{
    let mut r: Vec<String> = Vec::new();
    let mut i: usize = 0;
    while i < detected.len()
        invariant
            i <= detected.len(),
            views(r@) == disabled_among(views(detected@).take(i as int), views(disabled@)),
        decreases detected.len() - i,
    {
        let ghost before = views(r@);
        proof {
            let t = views(detected@).take(i + 1);
            assert(t.drop_last() =~= views(detected@).take(i as int));
            assert(t.last() == detected@[i as int]@);
        }
        if contains_text(disabled, detected[i].as_str()) {
            let item = detected[i].clone();
            r.push(item);
            assert(views(r@) =~= before.push(detected@[i as int]@));
        }
        i = i + 1;
    }
    assert(views(detected@).take(detected.len() as int) =~= views(detected@));
    r
}

/// The answer to a permission request of the stream-JSON agent for a tool
/// of an MCP server that the workspace disabled: a refusal naming the
/// server. `disabled` is the workspace's list, when its project is known.
pub open spec fn mcp_denial(agent: AgentType, tool: Seq<char>, disabled: Option<Seq<Seq<char>>>) -> Option<Seq<char>> {
    if agent == AgentType::Claude && (starts_with(tool, "mcp__"@) || starts_with(tool, "mcp:"@) || starts_with(
        tool,
        "mcp/"@,
    )) {
        match (mcp_server_of(tool), disabled) {
            (Some(server), Some(list)) => if list.contains(server) {
                Some("MCP server '"@ + server + "' is disabled for this workspace."@)
            } else {
                None
            },
            _ => None,
        }
    } else {
        None
    }
}

/// Decides whether a permission request is refused because its MCP server
/// is disabled; returns the refusal message.
pub fn mcp_permission_denial(agent: AgentType, tool: &str, disabled: Option<&Vec<String>>) -> (r: Option<String>)
    ensures
        crate::text::opt_chars(r) == mcp_denial(agent, tool@, match disabled { Some(v) => Some(views(v@)), None => None }),
{
    if agent != AgentType::Claude || !is_claude_mcp_tool_name(tool) {
        return None;
    }
    let server = match extract_mcp_server_name(tool) {
        Some(s) => s,
        None => return None,
    };
    let list = match disabled {
        Some(v) => v,
        None => return None,
    };
    if contains_text(list, server.as_str()) {
        let mut m = string_from_str("MCP server '");
        push_str(&mut m, server.as_str());
        push_str(&mut m, "' is disabled for this workspace.");
        Some(m)
    } else {
        None
    }
}

/// The Codex configuration key that switches a server off.
pub fn mcp_override_key(server: &str) -> (r: String)
    ensures
        r@ == "mcp_servers."@ + server@ + ".enabled"@,
{
    let a = "mcp_servers.";
    let b = ".enabled";
    let mut r = string_from_str(a);
    push_str(&mut r, server);
    push_str(&mut r, b);
    r
}

} // verus!
