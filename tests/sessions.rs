use milhouse::events::{reader_step, ExitWatch, ReaderStep};
use milhouse::launch::{join_path, launch_plan};
use milhouse::pty::SessionWriter;
use milhouse::session::{open_session_pty, startup_line, SessionError, TerminalInstance, TerminalState};
use std::collections::HashSet;

fn live_session(state: &mut TerminalState<Vec<u8>>) -> u128 {
    state.register(fresh_instance()).expect("id")
}

fn fresh_instance() -> TerminalInstance<Vec<u8>> {
    let pty = open_session_pty(None).expect("pty");
    TerminalInstance { pty_pair: pty, writer: SessionWriter::new(Vec::new()) }
}

#[test]
fn created_ids_are_distinct_and_listed() {
    let mut state: TerminalState<Vec<u8>> = TerminalState::new();
    let mut ids = Vec::new();
    for _ in 0..5 {
        ids.push(live_session(&mut state));
    }
    let unique: HashSet<u128> = ids.iter().cloned().collect();
    assert_eq!(unique.len(), 5);
    let listed: HashSet<u128> = state.list_terminals().into_iter().collect();
    assert_eq!(listed, unique);
    assert_eq!(state.list_terminals().len(), 5);
}

#[test]
fn hundred_registrations_are_unique() {
    let mut state: TerminalState<Vec<u8>> = TerminalState::new();
    let mut ids = HashSet::new();
    for _ in 0..100 {
        assert!(ids.insert(live_session(&mut state)));
    }
    assert_eq!(state.list_terminals().len(), 100);
}

#[test]
fn write_to_unknown_id_is_not_found() {
    let mut state: TerminalState<Vec<u8>> = TerminalState::new();
    assert_eq!(state.write_terminal(42, b"ls\n"), Err(SessionError::NotFound));
    let id = live_session(&mut state);
    assert_eq!(state.write_terminal(id.wrapping_add(1), b"ls\n"), Err(SessionError::NotFound));
    assert_eq!(state.write_terminal(id, b"ls\n"), Ok(()));
}

#[test]
fn zero_geometry_is_invalid() {
    let mut state: TerminalState<Vec<u8>> = TerminalState::new();
    let id = live_session(&mut state);
    assert_eq!(state.resize_terminal(id, 0, 24), Err(SessionError::InvalidArgument));
    assert_eq!(state.resize_terminal(id, 80, 0), Err(SessionError::InvalidArgument));
    assert_eq!(state.resize_terminal(id, 80, 24), Ok(()));
    assert_eq!(state.resize_terminal(id ^ 1, 80, 24), Err(SessionError::NotFound));
    assert!(matches!(open_session_pty(Some((0, 80))), Err(SessionError::InvalidArgument)));
    assert!(matches!(open_session_pty(Some((80, 0))), Err(SessionError::InvalidArgument)));
    assert!(open_session_pty(Some((40, 120))).is_ok());
}

#[test]
fn killed_session_is_gone() {
    let mut state: TerminalState<Vec<u8>> = TerminalState::new();
    let id = live_session(&mut state);
    let other = live_session(&mut state);
    assert_eq!(state.kill_terminal(id), Ok(()));
    assert!(!state.list_terminals().contains(&id));
    assert!(state.list_terminals().contains(&other));
    assert!(!state.contains(id));
    assert_eq!(state.write_terminal(id, b"x"), Err(SessionError::NotFound));
    assert_eq!(state.resize_terminal(id, 80, 24), Err(SessionError::NotFound));
    assert_eq!(state.kill_terminal(id), Err(SessionError::NotFound));
}

#[test]
fn startup_command_skipped_after_kill() {
    let mut state: TerminalState<Vec<u8>> = TerminalState::new();
    let id = live_session(&mut state);
    assert_eq!(state.inject_startup_command(id, b"make"), Ok(()));
    assert_eq!(state.kill_terminal(id), Ok(()));
    assert_eq!(state.inject_startup_command(id, b"make"), Err(SessionError::NotFound));
}

#[test]
fn startup_line_ends_in_newline() {
    assert_eq!(startup_line(b"make"), b"make\n".to_vec());
    assert_eq!(startup_line(b""), vec![10u8]);
}

#[test]
fn exit_is_reported_once() {
    let mut watch = ExitWatch::new(0x0123_4567_89ab_cdef_0123_4567_89ab_cdef);
    assert_eq!(watch.on_exit().as_deref(), Some("01234567-89ab-cdef-0123-456789abcdef"));
    assert_eq!(watch.on_exit(), None);
    assert_eq!(watch.on_exit(), None);
}

#[test]
fn reader_publishes_chunks_and_stops_at_end() {
    match reader_step(1, Some(b"hi")) {
        ReaderStep::Publish(o) => {
            assert_eq!(o.data, "hi");
            assert_eq!(o.id, "00000000-0000-0000-0000-000000000001");
        }
        ReaderStep::Close => panic!("expected output"),
    }
    match reader_step(1, Some(&[0x66, 0xff])) {
        ReaderStep::Publish(o) => assert_eq!(o.data, "f\u{FFFD}"),
        ReaderStep::Close => panic!("expected output"),
    }
    assert!(matches!(reader_step(1, Some(&[])), ReaderStep::Close));
    assert!(matches!(reader_step(1, None), ReaderStep::Close));
}

#[test]
fn paths_join_like_unix_paths() {
    assert_eq!(join_path("/home/u", ".local/bin"), "/home/u/.local/bin");
    assert_eq!(join_path("/home/u/", ".local/bin"), "/home/u/.local/bin");
    assert_eq!(join_path("", ".local/bin"), ".local/bin");
    assert_eq!(join_path("/home/u", "/etc"), "/etc");
}

#[test]
fn launch_plan_prefers_explicit_cwd_and_prepends_local_bin() {
    let plan = launch_plan(Some("/work".to_string()), Some("/home/u".to_string()), Some("/usr/bin".to_string()));
    assert_eq!(plan.cwd.as_deref(), Some("/work"));
    assert_eq!(plan.search_path.as_deref(), Some("/home/u/.local/bin:/usr/bin"));
    let plan = launch_plan(None, Some("/home/u".to_string()), None);
    assert_eq!(plan.cwd.as_deref(), Some("/home/u"));
    assert_eq!(plan.search_path, None);
    let plan = launch_plan(None, None, Some("/usr/bin".to_string()));
    assert_eq!(plan.cwd, None);
    assert_eq!(plan.search_path, None);
}

#[test]
fn killed_ids_are_never_reissued() {
    let mut state: TerminalState<Vec<u8>> = TerminalState::new();
    let id = live_session(&mut state);
    assert!(state.register_id(id, fresh_instance()).is_err());
    assert_eq!(state.kill_terminal(id), Ok(()));
    assert!(state.register_id(id, fresh_instance()).is_err());
    assert!(!state.contains(id));
    let other = id.wrapping_add(1);
    assert_eq!(state.register_id(other, fresh_instance()).ok(), Some(other));
    assert!(state.contains(other));
}
