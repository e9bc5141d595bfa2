//! Where the coding assistant's settings live, the server entry a project is
//! given, and how the assistant's server listing is read. The assistant keeps
//! its settings in a directory of its own name (`assistant_dir`), in each
//! project and in the home directory.
use std::collections::HashMap;
use vstd::prelude::*;
use vstd::std_specs::hash::obeys_key_model;

use crate::launch::{join_path, joined, opt_text};
use crate::pty::home_directory;
use crate::records::McpServerConfig;

verus! {

/// The project-local settings file of a project.
pub fn get_project_claude_settings_path(project_path: &str, assistant_dir: &str) -> (r: String)
    ensures
        r@ == joined(joined(project_path@, assistant_dir@), "settings.local.json"@),
{
    let dir = join_path(project_path, assistant_dir);
    join_path(dir.as_str(), "settings.local.json")
}

/// The text of the global settings file under a home directory, if any.
pub open spec fn global_settings_text(home: Option<Seq<char>>, assistant_dir: Seq<char>) -> Option<Seq<char>> {
    match home {
        Some(h) => Some(joined(joined(h, assistant_dir), "settings.json"@)),
        None => None,
    }
}

/// The global settings file under a home directory, when one is known.
pub fn global_settings_path(home: Option<&str>, assistant_dir: &str) -> (r: Option<String>)
    ensures
        opt_text(r) == global_settings_text(
            match home {
                Some(h) => Some(h@),
                None => None,
            },
            assistant_dir@,
        ),
{
    match home {
        Some(h) => {
            let dir = join_path(h, assistant_dir);
            Some(join_path(dir.as_str(), "settings.json"))
        },
        None => None,
    }
}

/// The user's global settings file, with the home directory looked up.
pub fn get_global_claude_settings_path(assistant_dir: &str) -> (r: Option<String>)
    ensures
        exists|home: Option<Seq<char>>| opt_text(r) == #[trigger] global_settings_text(home, assistant_dir@),
{
    let home = home_directory();
    match &home {
        Some(h) => global_settings_path(Some(h.as_str()), assistant_dir),
        None => global_settings_path(None, assistant_dir),
    }
}

/// The name the context server is registered under.
pub const CONTEXT_SERVER_NAME: &'static str = "milhouse-context";

/// The script that runs the context server from its checkout.
pub fn server_script_path(mcp_server_path: &str) -> (r: String)
    ensures
        r@ == mcp_server_path@ + "/dist/index.js"@,
{
    let mut r = mcp_server_path.to_string();
    r.append("/dist/index.js");
    r
}

/// The settings entry for the context server of a project: `node` running
/// the server's script, told the project's path.
pub fn context_server_entry(project_path: &str, mcp_server_path: &str) -> (r: McpServerConfig)
    ensures
        r.command@ == "node"@,
        r.args@.len() == 1,
        r.args@[0]@ == mcp_server_path@ + "/dist/index.js"@,
        r.env is Some,
        obeys_key_model::<String>() ==> (r.env matches Some(m) && exists|k: String, v: String|
            k@ == "MILHOUSE_PROJECT_PATH"@ && v@ == project_path@ && #[trigger] m@ == Map::<String, String>::empty().insert(k, v)),
{
    let mut env: HashMap<String, String> = HashMap::new();
    env.insert(String::from_str("MILHOUSE_PROJECT_PATH"), project_path.to_string());
    let mut args: Vec<String> = Vec::new();
    args.push(server_script_path(mcp_server_path));
    McpServerConfig { command: String::from_str("node"), args, env: Some(env) }
}

/// A JSON value, carried through settings untouched.
#[verifier::external_type_specification]
#[verifier::external_body]
pub struct ExJsonValue(serde_json::Value);

/// A project's assistant settings; keys this library does not know are kept
/// in `extra`.
pub struct ClaudeProjectSettings {
    pub mcp_servers: Option<HashMap<String, McpServerConfig>>,
    pub model: Option<String>,
    pub auto_start_claude: Option<bool>,
    pub ralph_wiggum_enabled: Option<bool>,
    pub append_system_prompt: Option<String>,
    pub extra: HashMap<String, serde_json::Value>,
}

impl Default for ClaudeProjectSettings {
    /// Settings with nothing set.
    fn default() -> (r: Self)
        ensures
            r.mcp_servers is None,
            r.model is None,
            r.auto_start_claude is None,
            r.ralph_wiggum_enabled is None,
            r.append_system_prompt is None,
            r.extra@.len() == 0,
    {
        ClaudeProjectSettings {
            mcp_servers: None,
            model: None,
            auto_start_claude: None,
            ralph_wiggum_enabled: None,
            append_system_prompt: None,
            extra: HashMap::new(),
        }
    }
}

/// The servers of a settings document, none when it has no map.
pub open spec fn servers_of(m: Option<HashMap<String, McpServerConfig>>) -> Map<String, McpServerConfig> {
    match m {
        Some(s) => s@,
        None => Map::empty(),
    }
}

/// Sets a project up for the context server: its entry is added to the
/// project's servers (replacing one of the same name), the assistant starts
/// on its own unless the project says otherwise, and `prompt` becomes the
/// appended system prompt. Everything else is kept.
pub fn register_context_server(settings: &mut ClaudeProjectSettings, entry: McpServerConfig, prompt: String)
    ensures
        final(settings).mcp_servers is Some,
        final(settings).auto_start_claude == match old(settings).auto_start_claude {
            Some(b) => Some(b),
            None => Some(true),
        },
        final(settings).append_system_prompt == Some(prompt),
        final(settings).model == old(settings).model,
        final(settings).ralph_wiggum_enabled == old(settings).ralph_wiggum_enabled,
        final(settings).extra == old(settings).extra,
        obeys_key_model::<String>() ==> (final(settings).mcp_servers matches Some(m) && exists|k: String|
            k@ == CONTEXT_SERVER_NAME@ && #[trigger] m@ == servers_of(old(settings).mcp_servers).insert(k, entry)),
{
    let name = String::from_str(CONTEXT_SERVER_NAME);
    let ghost key = name;
    let ghost before = servers_of(settings.mcp_servers);
    let mut servers: HashMap<String, McpServerConfig> = match settings.mcp_servers.take() {
        Some(m) => m,
        None => HashMap::new(),
    };
    assert(servers@ == before);
    servers.insert(name, entry);
    settings.mcp_servers = Some(servers);
    assert(obeys_key_model::<String>() ==> servers_of(settings.mcp_servers) == before.insert(key, entry));
    if settings.auto_start_claude.is_none() {
        settings.auto_start_claude = Some(true);
    }
    settings.append_system_prompt = Some(prompt);
}

/// The places the context server's checkout is looked for, in order: next
/// to the project root of a development build, then under the home directory.
pub fn server_dir_candidates(project_root: Option<&str>, home: Option<&str>) -> (r: Vec<String>)
    ensures
        r@.map_values(|p: String| p@) == (match project_root {
            Some(root) => seq![joined(root@, "mcp-server"@)],
            None => Seq::<Seq<char>>::empty(),
        }) + (match home {
            Some(h) => seq![joined(joined(h@, ".milhouse"@), "mcp-server"@)],
            None => Seq::<Seq<char>>::empty(),
        }),
{
    let mut r: Vec<String> = Vec::new();
    if let Some(root) = project_root {
        r.push(join_path(root, "mcp-server"));
    }
    if let Some(h) = home {
        let dir = join_path(h, ".milhouse");
        r.push(join_path(dir.as_str(), "mcp-server"));
    }
    proof {
        let want = (match project_root {
            Some(root) => seq![joined(root@, "mcp-server"@)],
            None => Seq::<Seq<char>>::empty(),
        }) + (match home {
            Some(h) => seq![joined(joined(h@, ".milhouse"@), "mcp-server"@)],
            None => Seq::<Seq<char>>::empty(),
        });
        assert(r@.map_values(|p: String| p@) =~= want);
    }
    r
}

/// `needle` occurs in `hay` at position `i`.
pub open spec fn occurs_at(hay: Seq<char>, needle: Seq<char>, i: int) -> bool {
    0 <= i && i + needle.len() <= hay.len() && hay.subrange(i, i + needle.len()) == needle
}

/// `needle` occurs somewhere in `hay`.
pub open spec fn occurs_in(hay: Seq<char>, needle: Seq<char>) -> bool {
    exists|i: int| occurs_at(hay, needle, i)
}

/// Whether `needle` occurs in `hay`.
pub fn contains_text(hay: &str, needle: &str) -> (r: bool)
    ensures
        r == occurs_in(hay@, needle@),
{
    let n = needle.unicode_len();
    let h = hay.unicode_len();
    if n > h {
        assert forall|i: int| !occurs_at(hay@, needle@, i) by {}
        return false;
    }
    let want = needle.to_string();
    let last = h - n;
    let mut i: usize = 0;
    loop
        invariant
            n == needle@.len(),
            h == hay@.len(),
            last == h - n,
            i <= last,
            want@ == needle@,
            forall|j: int| 0 <= j < i ==> !occurs_at(hay@, needle@, j),
        ensures
            forall|j: int| 0 <= j <= last ==> !occurs_at(hay@, needle@, j),
        decreases last - i,
    {
        let part = hay.substring_char(i, i + n).to_string();
        if part == want {
            assert(occurs_at(hay@, needle@, i as int));
            return true;
        }
        assert(!occurs_at(hay@, needle@, i as int));
        if i == last {
            break;
        }
        i = i + 1;
    }
    assert forall|j: int| !occurs_at(hay@, needle@, j) by {
        if 0 <= j && j + n <= h {
            assert(j <= last);
        }
    }
    false
}

/// Whether a server listing shows the context server connected.
pub fn listing_shows_connected(listing: &str) -> (r: bool)
    ensures
        r == (occurs_in(listing@, CONTEXT_SERVER_NAME@) && occurs_in(listing@, "Connected"@)),
{
    contains_text(listing, CONTEXT_SERVER_NAME) && contains_text(listing, "Connected")
}

} // verus!
