use window_commands::commands::close;
use window_commands::commands::dispatch;
use window_commands::commands::minimize;
use window_commands::commands::toggle_action;
use window_commands::commands::toggle_maximize;
use window_commands::commands::Command;
use window_commands::commands::WindowAction;
use window_commands::host::Host;
use window_commands::host::HostError;

#[test]
fn new_host_has_no_open_windows() {
    let host = Host::new();
    assert!(!host.is_open(0));
    assert!(!host.is_open(1));
    assert_eq!(host.is_maximized(0), Err(HostError));
}

#[test]
fn open_window_is_open_in_its_given_state() {
    let mut host = Host::new();
    host.open_window(7, false);
    host.open_window(8, true);
    assert!(host.is_open(7));
    assert!(host.is_open(8));
    assert_eq!(host.is_maximized(7), Ok(false));
    assert_eq!(host.is_maximized(8), Ok(true));
}

#[test]
fn commands_succeed_on_open_window() {
    let mut host = Host::new();
    host.open_window(1, false);
    assert_eq!(minimize(&mut host, 1), Ok(()));
    assert_eq!(toggle_maximize(&mut host, 1), Ok(()));
    assert_eq!(close(&mut host, 1), Ok(()));
}

#[test]
fn toggle_action_restores_maximized_and_maximizes_restored() {
    assert_eq!(toggle_action(true), WindowAction::Unmaximize);
    assert_eq!(toggle_action(false), WindowAction::Maximize);
}

#[test]
fn toggle_maximize_flips_restored_to_maximized_and_back() {
    let mut host = Host::new();
    host.open_window(3, false);
    assert_eq!(toggle_maximize(&mut host, 3), Ok(()));
    assert_eq!(host.is_maximized(3), Ok(true));
    assert_eq!(toggle_maximize(&mut host, 3), Ok(()));
    assert_eq!(host.is_maximized(3), Ok(false));
}

#[test]
fn toggle_maximize_twice_from_maximized_returns_to_maximized() {
    let mut host = Host::new();
    host.open_window(4, true);
    assert_eq!(toggle_maximize(&mut host, 4), Ok(()));
    assert_eq!(host.is_maximized(4), Ok(false));
    assert_eq!(toggle_maximize(&mut host, 4), Ok(()));
    assert_eq!(host.is_maximized(4), Ok(true));
}

#[test]
fn minimize_leaves_maximized_state_alone() {
    let mut host = Host::new();
    host.open_window(5, true);
    assert_eq!(minimize(&mut host, 5), Ok(()));
    assert_eq!(host.is_maximized(5), Ok(true));
    host.open_window(6, false);
    assert_eq!(minimize(&mut host, 6), Ok(()));
    assert_eq!(host.is_maximized(6), Ok(false));
}

#[test]
fn close_removes_window_from_open_set() {
    let mut host = Host::new();
    host.open_window(2, false);
    assert!(host.is_open(2));
    assert_eq!(close(&mut host, 2), Ok(()));
    assert!(!host.is_open(2));
}

#[test]
fn unknown_handle_surfaces_host_error() {
    let mut host = Host::new();
    assert_eq!(minimize(&mut host, 9), Err(HostError));
    assert_eq!(toggle_maximize(&mut host, 9), Err(HostError));
    assert_eq!(close(&mut host, 9), Err(HostError));
}

#[test]
fn commands_after_close_fail_with_host_error() {
    let mut host = Host::new();
    host.open_window(1, false);
    assert_eq!(close(&mut host, 1), Ok(()));
    assert_eq!(minimize(&mut host, 1), Err(HostError));
    assert_eq!(toggle_maximize(&mut host, 1), Err(HostError));
    assert_eq!(close(&mut host, 1), Err(HostError));
    assert_eq!(host.is_maximized(1), Err(HostError));
}

#[test]
fn failed_command_does_not_disturb_other_windows() {
    let mut host = Host::new();
    host.open_window(1, true);
    assert_eq!(toggle_maximize(&mut host, 2), Err(HostError));
    assert_eq!(close(&mut host, 2), Err(HostError));
    assert!(host.is_open(1));
    assert_eq!(host.is_maximized(1), Ok(true));
}

#[test]
fn dispatch_runs_the_named_command() {
    let mut host = Host::new();
    host.open_window(1, false);
    assert_eq!(dispatch(&mut host, Command::Minimize, 1), Ok(()));
    assert_eq!(host.is_maximized(1), Ok(false));
    assert_eq!(dispatch(&mut host, Command::ToggleMaximize, 1), Ok(()));
    assert_eq!(host.is_maximized(1), Ok(true));
    assert_eq!(dispatch(&mut host, Command::Close, 1), Ok(()));
    assert!(!host.is_open(1));
}

#[test]
fn dispatch_rejects_every_command_on_a_closed_handle() {
    let mut host = Host::new();
    host.open_window(1, false);
    assert_eq!(dispatch(&mut host, Command::Close, 1), Ok(()));
    assert_eq!(dispatch(&mut host, Command::Minimize, 1), Err(HostError));
    assert_eq!(dispatch(&mut host, Command::ToggleMaximize, 1), Err(HostError));
    assert_eq!(dispatch(&mut host, Command::Close, 1), Err(HostError));
}
