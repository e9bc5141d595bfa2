use milhouse::supervisor::{
    launch_command, resolve_server, server_candidates, target_triple, Liveness, McpServerPath, McpState,
    McpStatus, ServerCandidate, StartStep, SupervisorError,
};

#[test]
fn start_twice_reports_same_pid() {
    let mut state = McpState::new();
    assert_eq!(state.start_step(None), StartStep::Launch);
    assert_eq!(state.launched(4321), McpStatus { running: true, pid: Some(4321) });
    let again = state.start_step(Some(Liveness::Running));
    assert_eq!(again, StartStep::Ready(McpStatus { running: true, pid: Some(4321) }));
    assert_eq!(state.status_step(Some(Liveness::Running)), Ok(McpStatus { running: true, pid: Some(4321) }));
    assert_eq!(state.held(), Some(4321));
}

#[test]
fn stop_when_nothing_started() {
    let mut state = McpState::new();
    assert_eq!(state.stop_step(None), Ok(McpStatus { running: false, pid: None }));
    assert_eq!(state.held(), None);
}

#[test]
fn stop_failure_keeps_the_slot() {
    let mut state = McpState::new();
    state.launched(7);
    assert_eq!(
        state.stop_step(Some(Err("denied".to_string()))),
        Err(SupervisorError::IoFailure("denied".to_string()))
    );
    assert_eq!(state.held(), Some(7));
    assert_eq!(state.stop_step(Some(Ok(()))), Ok(McpStatus { running: false, pid: None }));
    assert_eq!(state.held(), None);
}

#[test]
fn exited_process_is_cleared() {
    let mut state = McpState::new();
    state.launched(9);
    assert_eq!(state.status_step(Some(Liveness::Exited)), Ok(McpStatus { running: false, pid: None }));
    assert_eq!(state.held(), None);
    state.launched(10);
    assert_eq!(state.start_step(Some(Liveness::Exited)), StartStep::Launch);
    assert_eq!(state.held(), None);
    state.launched(11);
    assert_eq!(
        state.status_step(Some(Liveness::Unknown("poll".to_string()))),
        Err(SupervisorError::IoFailure("poll".to_string()))
    );
    assert_eq!(state.held(), Some(11));
}

#[test]
fn first_existing_candidate_wins() {
    let cands = vec![
        ServerCandidate { path: McpServerPath::Binary("/a".to_string()), exists: false },
        ServerCandidate { path: McpServerPath::JavaScript("/b.js".to_string()), exists: true },
        ServerCandidate { path: McpServerPath::Binary("/c".to_string()), exists: true },
    ];
    assert_eq!(resolve_server(&cands), Ok(McpServerPath::JavaScript("/b.js".to_string())));
    let none = vec![ServerCandidate { path: McpServerPath::Binary("/a".to_string()), exists: false }];
    assert_eq!(
        resolve_server(&none),
        Err(SupervisorError::ResourceUnavailable("MCP server not found. Looked for: /a".to_string()))
    );
    assert!(matches!(resolve_server(&Vec::new()), Err(SupervisorError::ResourceUnavailable(_))));
}

#[test]
fn scripts_run_through_node() {
    let c = launch_command(&McpServerPath::JavaScript("/x/index.js".to_string()));
    assert_eq!(c.program, "node");
    assert_eq!(c.args, vec!["/x/index.js".to_string()]);
    let c = launch_command(&McpServerPath::Binary("/x/mcp-server".to_string()));
    assert_eq!(c.program, "/x/mcp-server");
    assert!(c.args.is_empty());
}

#[test]
fn target_triples() {
    assert_eq!(target_triple("x86_64", "linux"), "x86_64-unknown-linux-gnu");
    assert_eq!(target_triple("aarch64", "macos"), "aarch64-apple-darwin");
    assert_eq!(target_triple("x86_64", "windows"), "x86_64-pc-windows-msvc");
    assert_eq!(target_triple("riscv64", "freebsd"), "riscv64-freebsd");
}

#[test]
fn candidates_in_search_order() {
    let c = server_candidates(Some("/proj"), "/app", "x86_64-unknown-linux-gnu", "");
    assert_eq!(
        c,
        vec![
            McpServerPath::Binary("/proj/mcp-server/dist/mcp-server".to_string()),
            McpServerPath::JavaScript("/proj/mcp-server/dist/index.js".to_string()),
            McpServerPath::Binary("/app/mcp-server-x86_64-unknown-linux-gnu".to_string()),
            McpServerPath::Binary("/app/mcp-server".to_string()),
        ]
    );
    let c = server_candidates(None, "C:/app", "x86_64-pc-windows-msvc", ".exe");
    assert_eq!(
        c,
        vec![
            McpServerPath::Binary("C:/app/mcp-server-x86_64-pc-windows-msvc.exe".to_string()),
            McpServerPath::Binary("C:/app/mcp-server.exe".to_string()),
        ]
    );
}
