use nm_dbus_connection_action::config::{Config, ConnectionConfig};
use nm_dbus_connection_action::dispatch::{ConnectionEvent, ScriptCommand};
use nm_dbus_connection_action::namespace::{is_active_connection_path, starts_with};
use nm_dbus_connection_action::supervisor::{exit_warning, ExitWarning};
use nm_dbus_connection_action::teardown::{SignalFilter, Teardown};
use nm_dbus_connection_action::tracker::StateTracker;
use nm_dbus_connection_action::watcher::{resolved_identity, Watcher};

const PATH_1: &str = "/org/freedesktop/NetworkManager/ActiveConnection/1";
const PATH_2: &str = "/org/freedesktop/NetworkManager/ActiveConnection/2";

fn s(x: &str) -> String {
    x.to_string()
}

fn conn(name: &str, context: &str, up: &str, down: &str) -> ConnectionConfig {
    ConnectionConfig::new(s(name), s(context), s(up), s(down))
}

fn home_config() -> Config {
    let mut c = Config::new();
    c.insert(s("uuid-1"), conn("Home", "default", "echo up", "echo down"));
    c
}

fn ids(id: &str, uuid: &str) -> Option<(String, String)> {
    Some((s(id), s(uuid)))
}

fn assert_command(cmd: &ScriptCommand, script: &str, name: &str, context: &str) {
    assert_eq!(cmd.program, "/bin/sh");
    assert_eq!(cmd.args, vec![s("-c"), s(script)]);
    assert_eq!(
        cmd.env,
        vec![(s("CONNECTION_NAME"), s(name)), (s("CONNECTION_CONTEXT"), s(context))]
    );
}

#[test]
fn up_runs_up_script_and_records_connection() {
    let mut w = Watcher::from_config(home_config());
    let cmd = w.handle_event(ConnectionEvent::Up, s(PATH_1), ids("Home", "uuid-1"));
    assert_command(&cmd.unwrap(), "echo up", "Home", "default");
    assert_eq!(w.active_identity(&s(PATH_1)), ids("Home", "uuid-1"));
}

#[test]
fn down_runs_down_script_and_forgets_connection() {
    let mut w = Watcher::from_config(home_config());
    w.handle_event(ConnectionEvent::Up, s(PATH_1), ids("Home", "uuid-1"));
    let cmd = w.handle_event(ConnectionEvent::Down, s(PATH_1), None);
    assert_command(&cmd.unwrap(), "echo down", "Home", "default");
    assert!(!w.is_active(&s(PATH_1)));
    assert_eq!(w.active_identity(&s(PATH_1)), None);
}

#[test]
fn unconfigured_connection_starts_nothing() {
    let mut w = Watcher::from_config(home_config());
    let cmd = w.handle_event(ConnectionEvent::Up, s(PATH_2), ids("Office", "uuid-9"));
    assert!(cmd.is_none());
    let cmd = w.handle_event(ConnectionEvent::Down, s(PATH_2), None);
    assert!(cmd.is_none());
}

#[test]
fn failed_script_then_down_is_handled() {
    let mut w = Watcher::from_config(home_config());
    w.handle_event(ConnectionEvent::Up, s(PATH_1), ids("Home", "uuid-1"));
    assert_eq!(exit_warning(Some(3)), Some(ExitWarning::Status(3)));
    let cmd = w.handle_event(ConnectionEvent::Down, s(PATH_1), None);
    assert_command(&cmd.unwrap(), "echo down", "Home", "default");
    assert!(!w.is_active(&s(PATH_1)));
}

#[test]
fn down_without_up_is_noop() {
    let mut w = Watcher::from_config(home_config());
    let cmd = w.handle_event(ConnectionEvent::Down, s(PATH_1), ids("Home", "uuid-1"));
    assert!(cmd.is_none());
    assert!(!w.is_active(&s(PATH_1)));
}

#[test]
fn down_uses_identity_resolved_at_up() {
    let mut c = home_config();
    c.insert(s("uuid-2"), conn("Work", "office", "echo w-up", "echo w-down"));
    let mut w = Watcher::from_config(c);
    w.handle_event(ConnectionEvent::Up, s(PATH_1), ids("Home", "uuid-1"));
    w.handle_event(ConnectionEvent::Up, s(PATH_2), ids("Work", "uuid-2"));
    w.handle_event(ConnectionEvent::Down, s(PATH_2), None);
    let cmd = w.handle_event(ConnectionEvent::Down, s(PATH_1), ids("Work", "uuid-2"));
    assert_command(&cmd.unwrap(), "echo down", "Home", "default");
}

#[test]
fn failed_resolve_changes_nothing() {
    let mut w = Watcher::from_config(home_config());
    let cmd = w.handle_event(ConnectionEvent::Up, s(PATH_1), None);
    assert!(cmd.is_none());
    assert!(!w.is_active(&s(PATH_1)));
    let cmd = w.handle_event(ConnectionEvent::Up, s(PATH_1), ids("Home", "uuid-1"));
    assert_command(&cmd.unwrap(), "echo up", "Home", "default");
    assert!(w.is_active(&s(PATH_1)));
}

#[test]
fn lookup_prefers_uuid_over_name() {
    let mut c = Config::new();
    c.insert(s("Home"), conn("by-name", "n", "echo name-up", "echo name-down"));
    c.insert(s("uuid-1"), conn("by-uuid", "u", "echo uuid-up", "echo uuid-down"));
    let w = Watcher::from_config(c);
    let p = w.get_conn_params(&s("Home"), &s("uuid-1")).unwrap();
    assert_eq!(p.name, "by-uuid");
    let p = w.get_conn_params(&s("Home"), &s("uuid-7")).unwrap();
    assert_eq!(p.name, "by-name");
    assert!(w.get_conn_params(&s("Away"), &s("uuid-7")).is_none());
    let cmd = w.run_conn_cmd(&s("Home"), &s("uuid-7"), ConnectionEvent::Down).unwrap();
    assert_command(&cmd, "echo name-down", "by-name", "n");
    assert!(w.run_conn_cmd(&s("Away"), &s("uuid-7"), ConnectionEvent::Up).is_none());
}

#[test]
fn teardown_tries_both_after_a_failure() {
    let mut t = Teardown::new();
    assert_eq!(t.next_filter(), Some(SignalFilter::InterfacesAdded));
    t.record(SignalFilter::InterfacesAdded, Err(s("no such match")));
    assert_eq!(t.next_filter(), Some(SignalFilter::InterfacesRemoved));
    assert!(!t.is_done());
    t.record(SignalFilter::InterfacesRemoved, Ok(()));
    assert_eq!(t.next_filter(), None);
    assert!(t.is_done());
    assert_eq!(t.finish(), Err(vec![s("no such match")]));
}

#[test]
fn teardown_succeeds_when_both_removals_do() {
    let mut t = Teardown::new();
    t.record(SignalFilter::InterfacesAdded, Ok(()));
    t.record(SignalFilter::InterfacesRemoved, Ok(()));
    assert!(t.is_done());
    assert_eq!(t.finish(), Ok(()));
}

#[test]
fn teardown_reports_both_failures_in_order() {
    let mut t = Teardown::new();
    t.record(SignalFilter::InterfacesAdded, Err(s("first")));
    t.record(SignalFilter::InterfacesRemoved, Err(s("second")));
    assert_eq!(t.finish(), Err(vec![s("first"), s("second")]));
}

#[test]
fn events_outside_namespace_are_dropped() {
    let mut w = Watcher::from_config(home_config());
    let other = s("/org/freedesktop/NetworkManager/Devices/1");
    assert!(!w.accepts(&other));
    let cmd = w.handle_event(ConnectionEvent::Up, other.clone(), ids("Home", "uuid-1"));
    assert!(cmd.is_none());
    assert!(!w.is_active(&other));
    assert!(w.accepts(&s(PATH_1)));
}

#[test]
fn repeated_up_keeps_first_identity_and_runs_once() {
    let mut c = home_config();
    c.insert(s("uuid-2"), conn("Work", "office", "echo w-up", "echo w-down"));
    let mut w = Watcher::from_config(c);
    assert!(w.handle_event(ConnectionEvent::Up, s(PATH_1), ids("Home", "uuid-1")).is_some());
    assert!(w.handle_event(ConnectionEvent::Up, s(PATH_1), ids("Work", "uuid-2")).is_none());
    assert_eq!(w.active_identity(&s(PATH_1)), ids("Home", "uuid-1"));
}

#[test]
fn connection_event_returns_identities() {
    let mut w = Watcher::from_config(Config::new());
    assert_eq!(w.connection_event(ConnectionEvent::Up, s(PATH_1), ids("A", "u-a")), ids("A", "u-a"));
    assert_eq!(w.connection_event(ConnectionEvent::Up, s(PATH_1), ids("B", "u-b")), None);
    assert_eq!(w.connection_event(ConnectionEvent::Down, s(PATH_1), None), ids("A", "u-a"));
    assert_eq!(w.connection_event(ConnectionEvent::Down, s(PATH_1), None), None);
}

#[test]
fn exit_warnings() {
    assert_eq!(exit_warning(Some(0)), None);
    assert_eq!(exit_warning(Some(3)), Some(ExitWarning::Status(3)));
    assert_eq!(exit_warning(Some(-1)), Some(ExitWarning::Status(-1)));
    assert_eq!(exit_warning(None), Some(ExitWarning::Signal));
}

#[test]
fn resolved_identity_needs_both() {
    assert_eq!(resolved_identity(Some(s("Home")), Some(s("uuid-1"))), ids("Home", "uuid-1"));
    assert_eq!(resolved_identity(Some(s("Home")), None), None);
    assert_eq!(resolved_identity(None, Some(s("uuid-1"))), None);
    assert_eq!(resolved_identity(None, None), None);
}

#[test]
fn prefix_checks() {
    assert!(starts_with("abcdef", "abc"));
    assert!(starts_with("abc", "abc"));
    assert!(starts_with("abc", ""));
    assert!(!starts_with("ab", "abc"));
    assert!(!starts_with("abd", "abc"));
    assert!(starts_with("éàx", "éà"));
    assert!(is_active_connection_path(PATH_1));
    assert!(!is_active_connection_path("/org/freedesktop/NetworkManager/ActiveConnection"));
    assert!(!is_active_connection_path(""));
}

#[test]
fn config_insert_replaces_and_lists() {
    let mut c = Config::new();
    assert!(c.get(&s("k")).is_none());
    c.insert(s("k"), conn("one", "c1", "u1", "d1"));
    c.insert(s("j"), conn("two", "c2", "u2", "d2"));
    c.insert(s("k"), conn("three", "c3", "u3", "d3"));
    assert_eq!(c.get(&s("k")).unwrap().name, "three");
    assert_eq!(c.get(&s("j")).unwrap().up_script, "u2");
    assert_eq!(c.entries().len(), 2);
}

#[test]
fn tracker_records_and_takes() {
    let mut t = StateTracker::new();
    assert!(t.record_up(s(PATH_1), s("Home"), s("uuid-1")));
    assert!(!t.record_up(s(PATH_1), s("Other"), s("uuid-2")));
    assert!(t.record_up(s(PATH_2), s("Work"), s("uuid-2")));
    assert_eq!(t.get(&s(PATH_1)), ids("Home", "uuid-1"));
    let e = t.take_down(&s(PATH_1)).unwrap();
    assert_eq!((e.path.as_str(), e.id.as_str(), e.uuid.as_str()), (PATH_1, "Home", "uuid-1"));
    assert!(t.take_down(&s(PATH_1)).is_none());
    assert!(t.contains(&s(PATH_2)));
    assert!(!t.contains(&s(PATH_1)));
}

#[test]
fn duplicate_keeps_contents() {
    let c = conn("Home", "default", "echo up", "echo down");
    let d = c.duplicate();
    assert_eq!((d.name, d.context, d.up_script, d.down_script), (s("Home"), s("default"), s("echo up"), s("echo down")));
}
