use milhouse::assistant::{
    get_global_claude_settings_path, global_settings_path, register_context_server, ClaudeProjectSettings, CONTEXT_SERVER_NAME,
    context_server_entry, contains_text, get_project_claude_settings_path, listing_shows_connected,
    server_dir_candidates, server_script_path,
};
use milhouse::drawer::{list_documents, list_tasks, update_task_status};
use milhouse::files::{file_entry, get_home_dir, sort_entries, text_le_exec};

#[test]
fn project_settings_path() {
    assert_eq!(get_project_claude_settings_path("/p", ".assistant"), "/p/.assistant/settings.local.json");
    assert_eq!(get_project_claude_settings_path("/p/", ".assistant"), "/p/.assistant/settings.local.json");
    assert_eq!(get_project_claude_settings_path("", ".assistant"), ".assistant/settings.local.json");
    assert_eq!(global_settings_path(Some("/home/u"), ".assistant").as_deref(), Some("/home/u/.assistant/settings.json"));
    assert_eq!(global_settings_path(None, ".assistant"), None);
}

#[test]
fn context_server_entry_runs_node_on_script() {
    let e = context_server_entry("/proj", "/srv");
    assert_eq!(e.command, "node");
    assert_eq!(e.args, vec!["/srv/dist/index.js".to_string()]);
    let env = e.env.expect("env");
    assert_eq!(env.get("MILHOUSE_PROJECT_PATH").map(|s| s.as_str()), Some("/proj"));
    assert_eq!(server_script_path("/srv"), "/srv/dist/index.js");
}

#[test]
fn text_search() {
    assert!(contains_text("abcdef", "cde"));
    assert!(contains_text("abc", ""));
    assert!(!contains_text("abc", "abcd"));
    assert!(!contains_text("abc", "ac"));
    assert!(contains_text("héllo", "llo"));
}

#[test]
fn listing_needs_name_and_connected() {
    assert!(listing_shows_connected("milhouse-context: node x - ✓ Connected"));
    assert!(!listing_shows_connected("milhouse-context: node x - ✗ Failed"));
    assert!(!listing_shows_connected("other: Connected"));
}

#[test]
fn hidden_names_start_with_dot() {
    let e = file_entry(".git".to_string(), "/p/.git".to_string(), true);
    assert!(e.is_hidden && e.is_dir);
    let e = file_entry("src".to_string(), "/p/src".to_string(), false);
    assert!(!e.is_hidden && !e.is_dir);
    assert!(!file_entry(String::new(), String::new(), false).is_hidden);
}

#[test]
fn drawer_is_empty() {
    assert!(list_tasks(None).unwrap().is_empty());
    assert!(list_documents(Some("/p".to_string())).unwrap().is_empty());
    assert_eq!(update_task_status("t".to_string(), "done".to_string()), Ok(()));
}

#[test]
fn listing_order_dirs_first_then_case_insensitive() {
    let names = [("b", false), ("Zed", true), ("A", false), ("alpha", true), (".hidden", false)];
    let entries = names
        .iter()
        .map(|(n, d)| file_entry(n.to_string(), format!("/p/{}", n), *d))
        .collect::<Vec<_>>();
    let sorted: Vec<String> = sort_entries(entries).into_iter().map(|e| e.name).collect();
    assert_eq!(sorted, vec!["alpha", "Zed", ".hidden", "A", "b"]);
    assert!(text_le_exec("ab", "abc"));
    assert!(!text_le_exec("abc", "ab"));
    assert!(text_le_exec("", ""));
    assert!(text_le_exec("a", "b"));
    assert!(sort_entries(Vec::new()).is_empty());
}

#[test]
fn home_dir_matches_global_settings() {
    match get_home_dir() {
        Ok(home) => {
            let p = get_global_claude_settings_path(".assistant").expect("path");
            assert!(p.starts_with(&home));
            assert!(p.ends_with(".assistant/settings.json"));
        }
        Err(e) => assert_eq!(e, "Could not determine home directory"),
    }
}

#[test]
fn context_server_registration_keeps_choices() {
    let mut s = ClaudeProjectSettings::default();
    register_context_server(&mut s, context_server_entry("/proj", "/srv"), "prompt".to_string());
    assert_eq!(s.auto_start_claude, Some(true));
    assert_eq!(s.append_system_prompt.as_deref(), Some("prompt"));
    let servers = s.mcp_servers.as_ref().expect("servers");
    assert_eq!(servers.len(), 1);
    assert_eq!(servers[CONTEXT_SERVER_NAME].args, vec!["/srv/dist/index.js".to_string()]);

    let mut s = ClaudeProjectSettings::default();
    s.auto_start_claude = Some(false);
    s.model = Some("m".to_string());
    register_context_server(&mut s, context_server_entry("/a", "/b"), "p2".to_string());
    register_context_server(&mut s, context_server_entry("/a", "/c"), "p3".to_string());
    assert_eq!(s.auto_start_claude, Some(false));
    assert_eq!(s.model.as_deref(), Some("m"));
    assert_eq!(s.append_system_prompt.as_deref(), Some("p3"));
    let servers = s.mcp_servers.as_ref().expect("servers");
    assert_eq!(servers.len(), 1);
    assert_eq!(servers[CONTEXT_SERVER_NAME].args, vec!["/c/dist/index.js".to_string()]);
}

#[test]
fn server_dirs_in_search_order() {
    assert_eq!(
        server_dir_candidates(Some("/proj"), Some("/home/u")),
        vec!["/proj/mcp-server".to_string(), "/home/u/.milhouse/mcp-server".to_string()]
    );
    assert_eq!(server_dir_candidates(None, Some("/home/u/")), vec!["/home/u/.milhouse/mcp-server".to_string()]);
    assert!(server_dir_candidates(None, None).is_empty());
}
