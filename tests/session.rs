use cursive_open_editor::session::{
    build_invocation, CursiveOpenEditorOptions, EditSession, EditorExit, SessionAction,
    SessionError, SessionEvent,
};
use cursive_open_editor::strategy::{EditPathStrategy, EditorEnv, FindEditorStrategy, TargetMode};

fn no_env() -> EditorEnv {
    EditorEnv { cursive_editor: None, editor: None, visual: None }
}

fn given(path: &str, editor: &str, extra: &[&str]) -> CursiveOpenEditorOptions {
    CursiveOpenEditorOptions {
        editor_strategy: FindEditorStrategy::AbsolutePath(editor.to_string()),
        additional_args: extra.iter().map(|s| s.to_string()).collect(),
        edit_path_strategy: EditPathStrategy::GivePath(path.to_string()),
    }
}

/// A stand-in for the screen, counting how it was handled.
#[derive(Default)]
struct FakeScreen {
    snapshots: u32,
    restores: u32,
    suspended: bool,
}

/// Drives a session to its end, answering Spawn and Wait with the given
/// events, and returns the actions asked for.
fn drive(
    session: &mut EditSession,
    screen: &mut FakeScreen,
    mut spawn: Option<SessionEvent>,
    mut wait: Option<SessionEvent>,
) -> Vec<SessionAction> {
    let mut actions = Vec::new();
    loop {
        let action = session.next_action();
        actions.push(action);
        let event = match action {
            SessionAction::SnapshotAndClear => {
                screen.snapshots += 1;
                screen.suspended = true;
                SessionEvent::Suspended
            }
            SessionAction::Spawn => spawn.take().unwrap(),
            SessionAction::Wait => wait.take().unwrap(),
            SessionAction::Restore => {
                screen.restores += 1;
                screen.suspended = false;
                SessionEvent::Restored
            }
            SessionAction::Finish => return actions,
        };
        assert!(session.advance(event));
    }
}

#[test]
fn invocation_puts_target_last() {
    let inv = build_invocation(
        "vim".to_string(),
        vec!["--block".to_string()],
        "/tmp/x".to_string(),
    );
    assert_eq!(inv.program, "vim");
    assert_eq!(inv.args, vec!["--block".to_string(), "/tmp/x".to_string()]);
    assert_eq!(inv.args.last().unwrap(), "/tmp/x");
    assert_eq!(inv.args[inv.args.len() - 2], "--block");
}

#[test]
fn invocation_without_extra_args_is_only_the_target() {
    let inv = build_invocation("ed".to_string(), Vec::new(), "f.txt".to_string());
    assert_eq!(inv.args, vec!["f.txt".to_string()]);
}

#[test]
fn prepared_session_orders_arguments() {
    let s = EditSession::prepare(given("/tmp/x", "/bin/ed", &["-a", "--block"]), no_env())
        .ok()
        .unwrap();
    assert_eq!(s.invocation().program, "/bin/ed");
    assert_eq!(
        s.invocation().args,
        vec!["-a".to_string(), "--block".to_string(), "/tmp/x".to_string()]
    );
    assert_eq!(s.target().mode(), TargetMode::Borrowed);
    assert_eq!(s.next_action(), SessionAction::SnapshotAndClear);
}

#[test]
fn default_options_search_env_and_make_temp() {
    let o = CursiveOpenEditorOptions::default();
    assert!(matches!(o.editor_strategy, FindEditorStrategy::Envs));
    assert!(matches!(o.edit_path_strategy, EditPathStrategy::MakeTmp));
    assert!(o.additional_args.is_empty());
}

#[test]
fn missing_editor_fails_before_anything_else() {
    let r = EditSession::prepare(CursiveOpenEditorOptions::default(), no_env());
    assert!(matches!(r, Err(SessionError::EditorNotFound)));
}

#[test]
fn temp_target_session_is_guarded() {
    let env = EditorEnv { cursive_editor: None, editor: None, visual: Some("vi".to_string()) };
    let s = EditSession::prepare(CursiveOpenEditorOptions::default(), env).ok().unwrap();
    assert_eq!(s.invocation().program, "vi");
    assert_eq!(s.target().mode(), TargetMode::Guarded);
    assert_eq!(s.invocation().args.last().unwrap(), &s.target().path());
}

#[test]
fn spawn_failure_still_restores_the_screen() {
    let mut s = EditSession::prepare(given("f.txt", "/no/such/editor", &[]), no_env())
        .ok()
        .unwrap();
    let mut screen = FakeScreen::default();
    let err = std::io::Error::new(std::io::ErrorKind::NotFound, "no such editor");
    let actions = drive(&mut s, &mut screen, Some(SessionEvent::SpawnFailed(err)), None);
    assert_eq!(
        actions,
        vec![
            SessionAction::SnapshotAndClear,
            SessionAction::Spawn,
            SessionAction::Restore,
            SessionAction::Finish
        ]
    );
    assert_eq!(screen.snapshots, 1);
    assert_eq!(screen.restores, 1);
    assert!(!screen.suspended);
    match s.finish() {
        Err(SessionError::SpawnFailed(e)) => assert_eq!(e.kind(), std::io::ErrorKind::NotFound),
        _ => panic!("expected a spawn failure"),
    }
}

#[test]
fn wait_failure_still_restores_the_screen() {
    let mut s = EditSession::prepare(given("f.txt", "ed", &[]), no_env()).ok().unwrap();
    let mut screen = FakeScreen::default();
    let err = std::io::Error::new(std::io::ErrorKind::Interrupted, "wait failed");
    drive(
        &mut s,
        &mut screen,
        Some(SessionEvent::Spawned),
        Some(SessionEvent::WaitFailed(err)),
    );
    assert_eq!((screen.snapshots, screen.restores), (1, 1));
    assert!(matches!(s.finish(), Err(SessionError::WaitFailed(_))));
}

#[test]
fn nonzero_exit_is_reported_only_on_request() {
    let mut s = EditSession::prepare(given("f.txt", "ed", &[]), no_env()).ok().unwrap();
    let mut screen = FakeScreen::default();
    let exit = EditorExit { code: Some(1) };
    drive(&mut s, &mut screen, Some(SessionEvent::Spawned), Some(SessionEvent::Exited(exit)));
    assert_eq!((screen.snapshots, screen.restores), (1, 1));
    let opened = s.finish().ok().unwrap();
    assert_eq!(opened.status, exit);
    assert_eq!(opened.edited_path(), "f.txt");
    match opened.status_ok() {
        Err(SessionError::NonZeroExit(st)) => assert_eq!(st.code, Some(1)),
        _ => panic!("expected a non-zero exit"),
    }
}

#[test]
fn exit_by_signal_is_not_success() {
    let exit = EditorExit { code: None };
    assert!(!exit.success());
    assert!(EditorExit { code: Some(0) }.success());
    assert!(!EditorExit { code: Some(-1) }.success());
}

#[test]
fn out_of_order_events_are_refused() {
    let mut s = EditSession::prepare(given("f.txt", "ed", &[]), no_env()).ok().unwrap();
    assert!(!s.advance(SessionEvent::Restored));
    assert!(!s.advance(SessionEvent::Spawned));
    assert_eq!(s.next_action(), SessionAction::SnapshotAndClear);
    assert!(s.advance(SessionEvent::Suspended));
    assert!(!s.advance(SessionEvent::Suspended));
    assert!(!s.advance(SessionEvent::Exited(EditorExit { code: Some(0) })));
    assert_eq!(s.next_action(), SessionAction::Spawn);
    assert!(s.advance(SessionEvent::Spawned));
    assert!(s.advance(SessionEvent::Exited(EditorExit { code: Some(0) })));
    assert!(s.advance(SessionEvent::Restored));
    assert!(!s.advance(SessionEvent::Restored));
    assert_eq!(s.next_action(), SessionAction::Finish);
}

#[test]
fn editor_from_env_edits_temp_file() {
    let env = EditorEnv {
        cursive_editor: None,
        editor: Some("write-hello".to_string()),
        visual: None,
    };
    let mut s = EditSession::prepare(CursiveOpenEditorOptions::default(), env).ok().unwrap();
    assert_eq!(s.invocation().program, "write-hello");
    let mut screen = FakeScreen::default();
    let target = s.invocation().args.last().unwrap().clone();
    let mut actions = Vec::new();
    loop {
        let action = s.next_action();
        actions.push(action);
        let event = match action {
            SessionAction::SnapshotAndClear => {
                screen.snapshots += 1;
                SessionEvent::Suspended
            }
            SessionAction::Spawn => SessionEvent::Spawned,
            SessionAction::Wait => {
                // the editor finds its file, the last argument, and exits 0
                assert!(std::path::Path::new(&target).exists());
                SessionEvent::Exited(EditorExit { code: Some(0) })
            }
            SessionAction::Restore => {
                screen.restores += 1;
                SessionEvent::Restored
            }
            SessionAction::Finish => break,
        };
        assert!(s.advance(event));
    }
    let opened = s.finish().ok().unwrap();
    assert_eq!(
        actions,
        vec![
            SessionAction::SnapshotAndClear,
            SessionAction::Spawn,
            SessionAction::Wait,
            SessionAction::Restore,
            SessionAction::Finish
        ]
    );
    assert_eq!((screen.snapshots, screen.restores), (1, 1));
    assert!(opened.status_ok().is_ok());
    assert_eq!(opened.edited_path(), target);
    assert_eq!(opened.edited_path.mode(), TargetMode::Guarded);
    let path = opened.edited_path();
    assert!(std::path::Path::new(&path).exists());
    drop(opened);
    assert!(!std::path::Path::new(&path).exists());
}
