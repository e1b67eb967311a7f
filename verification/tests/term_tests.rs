use harnex::term::{busy_error, command_to_run, output_event, term_exit, TermSessions, TermState};

#[test]
fn commands_are_trimmed() {
    assert_eq!(command_to_run("  ls -la \n"), Ok("ls -la".to_string()));
    assert_eq!(command_to_run("   "), Err("命令为空".to_string()));
    assert_eq!(busy_error(), "已有命令正在运行，请等待完成或先停止");
}

#[test]
fn one_command_per_window() {
    let mut s: TermSessions<&str> = TermSessions::new();
    assert!(!s.open_session(1));
    assert_eq!(s.run_id(1), 0);
    assert_eq!(s.record_run(1, "a"), 1);
    assert!(s.open_session(1));
    assert!(!s.open_session(2));
    assert_eq!(s.running(1), Some(&"a"));
    assert_eq!(s.running(2), None);
    s.finish_run(1);
    assert!(!s.open_session(1));
    assert_eq!(s.run_id(1), 1);
    assert_eq!(s.record_run(1, "b"), 2);
    s.finish_run(9);
    assert_eq!(s.run_id(9), 0);
}

#[test]
fn exit_and_output_events() {
    let e = term_exit(3, 4, Some(0));
    assert!(!e.cancelled && e.code == Some(0) && e.win_id == 3 && e.run_id == 4);
    assert!(term_exit(3, 4, None).cancelled);
    let o = output_event(1, 2, "stdout", "hello".into()).unwrap();
    assert_eq!((o.win_id, o.run_id, o.stream.as_str(), o.text.as_str()), (1, 2, "stdout", "hello"));
    assert!(output_event(1, 2, "stderr", "  ".into()).is_none());
    let t: TermState<u8> = TermState::default();
    assert!(t.child.is_none() && t.run_id == 0);
}

use harnex::term::Waited;

#[test]
fn waiting_settles_the_session() {
    let mut s: TermSessions<u8> = TermSessions::new();
    s.open_session(5);
    s.record_run(5, 1);
    assert_eq!(s.settle(5, Waited::Running), None);
    assert!(s.running(5).is_some());
    assert_eq!(s.settle(5, Waited::Exited(Some(3))), Some(Some(3)));
    assert!(s.running(5).is_none());
    assert_eq!(s.run_id(5), 1);
    s.record_run(5, 2);
    assert_eq!(s.settle(5, Waited::Failed), Some(None));
    assert!(s.running(5).is_none());
    assert_eq!(s.settle(6, Waited::Gone), Some(None));
}
