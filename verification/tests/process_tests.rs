use harnex::process::{
    captured_text, classify_answer, command_log_line, listening_pid, output_log_line,
    port_busy_message, port_refused_message, port_released, port_taken_message, probe_connect_failed,
    probe_read_done, probe_request, start_plan, status_snapshot, watch_step, DshKind, DshState, Probe,
    StartPlan, WatchAction, LOG_CAP,
};

const NETSTAT: &str = "\r\nActive Connections\r\n\r\n  Proto  Local Address          Foreign Address        State           PID\r\n  TCP    0.0.0.0:135            0.0.0.0:0              LISTENING       1100\r\n  TCP    127.0.0.1:30800        0.0.0.0:0              LISTENING       777\r\n  TCP    127.0.0.1:3080         0.0.0.0:0              LISTENING       4242\r\n  TCP    127.0.0.1:3080         127.0.0.1:50000        ESTABLISHED     4242\r\n";

#[test]
fn finds_the_listening_pid() {
    assert_eq!(listening_pid(NETSTAT, 3080), Some(4242));
    assert_eq!(listening_pid(NETSTAT, 30800), Some(777));
    assert_eq!(listening_pid(NETSTAT, 135), Some(1100));
    assert_eq!(listening_pid(NETSTAT, 80), None);
    assert_eq!(listening_pid("", 80), None);
}

#[test]
fn listening_pid_needs_tcp_listening_and_a_number() {
    assert_eq!(listening_pid("  tcp 1.2.3.4:80 0.0.0.0:0 LISTENING 12\n", 80), Some(12));
    assert_eq!(listening_pid("  UDP 1.2.3.4:80 0.0.0.0:0 LISTENING 12\n", 80), None);
    assert_eq!(listening_pid("  TCP 1.2.3.4:80 0.0.0.0:0 listening 12\n", 80), None);
    assert_eq!(listening_pid("  TCP 1.2.3.4:80 0.0.0.0:0 LISTENING x\n  TCP [::]:80 [::]:0 LISTENING 9\n", 80), Some(9));
    assert_eq!(listening_pid("  TCP 1.2.3.4:80 0.0.0.0:0 LISTENING\n", 80), None);
}

#[test]
fn probe_answers() {
    assert_eq!(classify_answer("HTTP/1.0 200 OK\r\n\r\n<script>window.__DSH_BOOT__=1</script>"), Probe::Healthy);
    assert_eq!(classify_answer("HTTP/1.0 404 Not Found\r\n"), Probe::PortOpen);
    assert_eq!(classify_answer(""), Probe::PortOpen);
    assert_eq!(probe_connect_failed(true, "refused"), Probe::Closed);
    assert_eq!(probe_connect_failed(false, "denied"), Probe::Failed("端口探测失败: denied".to_string()));
    assert_eq!(
        probe_request(3080),
        "GET / HTTP/1.0\r\nHost: 127.0.0.1:3080\r\nConnection: close\r\n\r\n"
    );
    assert!(!probe_read_done(131_072));
    assert!(probe_read_done(131_073));
}

#[test]
fn messages_name_the_port() {
    assert_eq!(port_taken_message(3080), "端口 3080 已被其他程序占用");
    assert_eq!(port_busy_message(8), "端口 8 被其他程序占用");
    assert_eq!(port_refused_message(3080), "端口 3080 已被其他程序占用（响应不是 DSH）");
}

#[test]
fn log_keeps_the_latest_lines() {
    let mut st: DshState<()> = DshState::new();
    for i in 0..(LOG_CAP + 25) {
        st.push_log(format!("line {i}"));
        assert!(st.log.len() <= LOG_CAP);
    }
    assert_eq!(st.log.len(), LOG_CAP);
    assert_eq!(st.log[0], "line 25");
    assert_eq!(st.log[LOG_CAP - 1], format!("line {}", LOG_CAP + 24));
}

#[test]
fn stopping_forgets_the_process() {
    let mut st: DshState<u8> = DshState::default();
    st.record_launch(1, 99, 1000);
    assert_eq!(st.kind, DshKind::Starting);
    assert_eq!(st.pid, Some(99));
    assert_eq!(st.message.as_deref(), Some("正在启动…"));
    st.version = Some("1.0".to_string());
    st.set_kind(DshKind::Running, None);
    assert_eq!(st.pid, Some(99));
    st.set_kind(DshKind::Stopped, Some("bye".to_string()));
    assert_eq!(st.pid, None);
    assert_eq!(st.started_at, None);
    assert_eq!(st.version, None);
    assert_eq!(st.child, Some(1));
    st.finish_stop(None);
    assert_eq!(st.child, None);
    assert_eq!(st.message, None);
}

#[test]
fn refresh_follows_the_probe() {
    let mut st: DshState<u8> = DshState::new();
    st.refresh(false, Probe::Closed, None, 3080);
    assert_eq!(st.kind, DshKind::Stopped);
    st.record_launch(7, 50, 5);
    st.refresh(false, Probe::Closed, None, 3080);
    assert_eq!(st.kind, DshKind::Starting);
    assert_eq!(st.message.as_deref(), Some("正在启动…"));
    st.refresh(false, Probe::Healthy, Some(51), 3080);
    assert_eq!(st.kind, DshKind::Running);
    assert_eq!(st.pid, Some(51));
    assert_eq!(st.message, None);
    st.refresh(true, Probe::PortOpen, None, 3080);
    assert_eq!(st.child, None);
    assert_eq!(st.kind, DshKind::PortBusy);
    assert_eq!(st.pid, Some(51));
    assert_eq!(st.started_at, None);
    assert_eq!(st.message.as_deref(), Some("端口 3080 已被其他程序占用"));
    st.refresh(false, Probe::Failed("boom".to_string()), None, 3080);
    assert_eq!(st.kind, DshKind::Error);
    assert_eq!(st.message.as_deref(), Some("boom"));
    st.refresh(false, Probe::Closed, None, 3080);
    assert_eq!(st.kind, DshKind::Stopped);
    assert_eq!(st.pid, None);
}

#[test]
fn exited_child_is_dropped() {
    let mut st: DshState<u8> = DshState::new();
    assert!(!st.child_exited(true));
    st.record_launch(3, 4, 5);
    assert!(!st.child_exited(false));
    assert_eq!(st.child, Some(3));
    assert!(st.child_exited(true));
    assert_eq!(st.child, None);
    assert_eq!(st.started_at, Some(5));
}

#[test]
fn snapshot_copies_the_state() {
    let mut st: DshState<u8> = DshState::new();
    st.record_launch(3, 4, 5);
    st.version = Some("0.1.0".to_string());
    let s = status_snapshot(&st, 3080);
    assert_eq!(s.kind, "starting");
    assert_eq!(s.pid, Some(4));
    assert_eq!(s.port, 3080);
    assert_eq!(s.started_at, Some(5));
    assert_eq!(s.version.as_deref(), Some("0.1.0"));
    assert_eq!(s.message.as_deref(), Some("正在启动…"));
    assert_eq!(DshKind::PortBusy.as_str(), "portBusy");
}

#[test]
fn start_and_watch_decisions() {
    assert!(matches!(start_plan(&Probe::Healthy, 1), StartPlan::Reuse));
    assert!(matches!(start_plan(&Probe::Closed, 1), StartPlan::Launch));
    assert!(matches!(start_plan(&Probe::Failed(String::new()), 1), StartPlan::Launch));
    match start_plan(&Probe::PortOpen, 3080) {
        StartPlan::Refuse(e) => assert_eq!(e, "端口 3080 已被其他程序占用（响应不是 DSH）"),
        _ => panic!("expected a refusal"),
    }
    assert_eq!(watch_step(&Probe::Healthy, true, true), WatchAction::Ready);
    assert_eq!(watch_step(&Probe::PortOpen, true, true), WatchAction::Busy);
    assert_eq!(watch_step(&Probe::Closed, true, true), WatchAction::Exited);
    assert_eq!(watch_step(&Probe::Closed, false, true), WatchAction::TimedOut);
    assert_eq!(watch_step(&Probe::Closed, false, false), WatchAction::Wait);
    assert!(port_released(&Probe::Closed));
    assert!(!port_released(&Probe::PortOpen));
}

#[test]
fn watch_actions_change_the_state() {
    let mut st: DshState<u8> = DshState::new();
    st.record_launch(3, 4, 5);
    st.apply_watch(WatchAction::Ready, 3080);
    assert_eq!(st.kind, DshKind::Running);
    st.apply_watch(WatchAction::Busy, 3080);
    assert_eq!(st.message.as_deref(), Some("端口 3080 被其他程序占用"));
    st.apply_watch(WatchAction::TimedOut, 3080);
    assert_eq!(st.log.last().map(String::as_str), Some("启动超时，正在终止…"));
    assert_eq!(st.message.as_deref(), Some("启动超时"));
    st.apply_watch(WatchAction::Exited, 3080);
    assert_eq!(st.kind, DshKind::Stopped);
    assert_eq!(st.message.as_deref(), Some("进程已退出，请查看日志"));
    assert_eq!(st.pid, None);
}

#[test]
fn log_lines_and_captures() {
    assert_eq!(output_log_line("stdout", "ready"), Some("[stdout] ready".to_string()));
    assert_eq!(output_log_line("stderr", " \t "), None);
    assert_eq!(command_log_line("dsh web"), "$ dsh web");
    assert_eq!(captured_text("  0.1.0\r\n"), Some("0.1.0".to_string()));
    assert_eq!(captured_text("\n"), None);
}

use harnex::process::{capture_step, CaptureStep};

#[test]
fn capture_steps() {
    assert_eq!(capture_step(Some(true), true), CaptureStep::Collect);
    assert_eq!(capture_step(Some(false), true), CaptureStep::Kill);
    assert_eq!(capture_step(Some(false), false), CaptureStep::Wait);
    assert_eq!(capture_step(None, false), CaptureStep::Abandon);
}

use harnex::process::stop_target;

#[test]
fn held_process_and_stop_target() {
    let mut st: DshState<u8> = DshState::new();
    assert!(st.held_status(3080).is_none());
    st.record_launch(1, 77, 9);
    let held = st.held_status(3080).unwrap();
    assert_eq!(held.kind, "starting");
    assert_eq!(held.pid, Some(77));
    st.set_version("0.2.0".to_string());
    assert_eq!(st.version.as_deref(), Some("0.2.0"));
    assert_eq!(stop_target(Some(5), Some(6)), Some(5));
    assert_eq!(stop_target(None, Some(6)), Some(6));
    assert_eq!(stop_target(None, None), None);
}

use harnex::process::{refresh_needs_listener, stop_needs_listener};

#[test]
fn when_the_listener_is_looked_up() {
    assert!(refresh_needs_listener(&Probe::Healthy));
    assert!(refresh_needs_listener(&Probe::PortOpen));
    assert!(!refresh_needs_listener(&Probe::Closed));
    assert!(!refresh_needs_listener(&Probe::Failed("x".into())));
    assert!(stop_needs_listener(None));
    assert!(!stop_needs_listener(Some(3)));
}
