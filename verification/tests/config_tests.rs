use harnex::config::{
    default_true, home_or_dot, resolve_work_dir, upsert_window_state, AppConfig, WindowState,
    DEFAULT_PORT,
};

fn ws(id: u32, x: i32) -> WindowState {
    WindowState { id, x: Some(x), y: Some(0), width: Some(800), height: None }
}

#[test]
fn defaults() {
    let c = AppConfig::with_home("/home/a".to_string());
    assert_eq!(c.port, 3080);
    assert_eq!(DEFAULT_PORT, 3080);
    assert_eq!(c.dsh_command, None);
    assert_eq!(c.work_dir.as_deref(), Some("/home/a"));
    assert!(!c.stop_on_exit);
    assert_eq!(c.dsh_version, None);
    assert!(c.remember_window_state);
    assert!(default_true());
}

#[test]
fn home_fallbacks() {
    assert_eq!(home_or_dot(Some("C:\\Users\\a".into()), Some("/h".into())), "C:\\Users\\a");
    assert_eq!(home_or_dot(None, Some("/h".into())), "/h");
    assert_eq!(home_or_dot(None, None), ".");
}

#[test]
fn zero_port_becomes_default() {
    let mut c = AppConfig::with_home("/h".into());
    c.port = 0;
    c.stop_on_exit = true;
    let n = c.normalized();
    assert_eq!(n.port, 3080);
    assert!(n.stop_on_exit);
    let mut c = AppConfig::with_home("/h".into());
    c.port = 9000;
    assert_eq!(c.normalized().port, 9000);
}

#[test]
fn work_dir_setting() {
    let c = AppConfig::with_home("/h".into()).with_work_dir("/w".into());
    assert_eq!(c.work_dir.as_deref(), Some("/w"));
    assert_eq!(c.port, 3080);
    assert_eq!(resolve_work_dir(Some("/w".into()), true, "/h".into()), "/w");
    assert_eq!(resolve_work_dir(Some("/gone".into()), false, "/h".into()), "/h");
    assert_eq!(resolve_work_dir(None, true, "/h".into()), "/h");
}

#[test]
fn window_states_replace_by_id() {
    let mut v = vec![ws(1, 10), ws(2, 20)];
    upsert_window_state(&mut v, ws(2, 25));
    assert_eq!(v, vec![ws(1, 10), ws(2, 25)]);
    upsert_window_state(&mut v, ws(3, 30));
    assert_eq!(v, vec![ws(1, 10), ws(2, 25), ws(3, 30)]);
    let once = v.clone();
    upsert_window_state(&mut v, ws(3, 30));
    assert_eq!(v, once);
}

#[test]
fn only_the_first_duplicate_is_replaced() {
    let mut v = vec![ws(1, 1), ws(1, 2)];
    upsert_window_state(&mut v, ws(1, 3));
    assert_eq!(v, vec![ws(1, 3), ws(1, 2)]);
}

#[test]
fn empty_list_gets_the_state() {
    let mut v = Vec::new();
    upsert_window_state(&mut v, ws(4, 0));
    assert_eq!(v, vec![ws(4, 0)]);
}
