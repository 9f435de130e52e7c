use sidecar_supervisor::command::StreamTarget;
use sidecar_supervisor::shutdown::{kill_process_tree, KillCommand, Platform};
use sidecar_supervisor::state::{QueryError, SidecarProcess, SupervisorState, WindowEvent};

fn strings(items: &[&str]) -> Vec<String> {
    items.iter().map(|s| s.to_string()).collect()
}

#[test]
fn windows_kills_the_tree_with_taskkill() {
    let command = kill_process_tree(Platform::Windows, 1234);
    assert_eq!(
        command,
        KillCommand {
            program: "taskkill".to_string(),
            args: strings(&["/F", "/T", "/PID", "1234"]),
            stdout: StreamTarget::Discarded,
            stderr: StreamTarget::Discarded,
        }
    );
    assert_eq!(kill_process_tree(Platform::Windows, 0).args, strings(&["/F", "/T", "/PID", "0"]));
    assert_eq!(
        kill_process_tree(Platform::Windows, 4294967295).args,
        strings(&["/F", "/T", "/PID", "4294967295"])
    );
}

#[test]
fn posix_kills_the_process_group() {
    let command = kill_process_tree(Platform::Posix, 1234);
    assert_eq!(
        command,
        KillCommand {
            program: "kill".to_string(),
            args: strings(&["-s", "KILL", "--", "-1234"]),
            stdout: StreamTarget::Discarded,
            stderr: StreamTarget::Discarded,
        }
    );
    assert_eq!(
        kill_process_tree(Platform::Posix, 70000).args,
        strings(&["-s", "KILL", "--", "-70000"])
    );
}

#[test]
fn new_state_has_no_process_and_no_port() {
    let state = SupervisorState::new();
    assert_eq!(state.process(), None);
    assert_eq!(state.get_sidecar_port(), Err(QueryError::NotAvailable));
}

#[test]
fn shutdown_without_a_process_does_nothing() {
    let mut state = SupervisorState::new();
    assert_eq!(state.shutdown(Platform::Windows), None);
    assert_eq!(state.shutdown(Platform::Posix), None);
    assert_eq!(state.process(), None);
    assert_eq!(state.get_sidecar_port(), Err(QueryError::NotAvailable));
    assert_eq!(state.on_window_event(WindowEvent::CloseRequested, Platform::Windows), None);
}

#[test]
fn shutdown_kills_the_registered_process_once() {
    let mut state = SupervisorState::new();
    assert!(state.register_process(SidecarProcess { pid: 31337 }));
    assert!(state.publish_port(5173));
    let command = state.shutdown(Platform::Windows);
    assert_eq!(command, Some(kill_process_tree(Platform::Windows, 31337)));
    assert_eq!(command.unwrap().args, strings(&["/F", "/T", "/PID", "31337"]));
    assert_eq!(state.process(), None);
    assert_eq!(state.shutdown(Platform::Windows), None);
    assert_eq!(state.get_sidecar_port(), Ok(5173));
}

#[test]
fn shutdown_during_the_wait_for_the_handshake_kills_the_process() {
    let mut state = SupervisorState::new();
    assert!(state.register_process(SidecarProcess { pid: 600 }));
    let command = state.on_window_event(WindowEvent::CloseRequested, Platform::Posix);
    assert_eq!(command.unwrap().args, strings(&["-s", "KILL", "--", "-600"]));
    assert!(!state.publish_port(5173));
    assert_eq!(state.get_sidecar_port(), Err(QueryError::NotAvailable));
}

#[test]
fn other_window_events_change_nothing() {
    let mut state = SupervisorState::new();
    assert!(state.register_process(SidecarProcess { pid: 5 }));
    assert_eq!(state.on_window_event(WindowEvent::Other, Platform::Windows), None);
    assert_eq!(state.process(), Some(SidecarProcess { pid: 5 }));
    assert!(state.publish_port(8000));
    assert_eq!(state.on_window_event(WindowEvent::Other, Platform::Posix), None);
    assert_eq!(state.get_sidecar_port(), Ok(8000));
    assert_eq!(state.process(), Some(SidecarProcess { pid: 5 }));
}

#[test]
fn only_one_process_is_registered() {
    let mut state = SupervisorState::new();
    assert!(state.register_process(SidecarProcess { pid: 1 }));
    assert!(!state.register_process(SidecarProcess { pid: 2 }));
    assert_eq!(state.process(), Some(SidecarProcess { pid: 1 }));
}

#[test]
fn no_process_is_registered_once_a_port_is_known() {
    let mut state = SupervisorState::new();
    assert!(state.register_process(SidecarProcess { pid: 1 }));
    assert!(state.publish_port(4000));
    assert_eq!(state.shutdown(Platform::Windows).is_some(), true);
    assert!(!state.register_process(SidecarProcess { pid: 2 }));
    assert_eq!(state.process(), None);
    assert_eq!(state.get_sidecar_port(), Ok(4000));
}

#[test]
fn port_is_published_once_and_never_changes() {
    let mut state = SupervisorState::new();
    assert!(!state.publish_port(5173));
    assert_eq!(state.get_sidecar_port(), Err(QueryError::NotAvailable));
    assert!(state.register_process(SidecarProcess { pid: 10 }));
    assert!(state.publish_port(5173));
    assert!(!state.publish_port(6000));
    assert!(!state.publish_port(0));
    assert!(!state.publish_port(5173));
    assert_eq!(state.get_sidecar_port(), Ok(5173));
}

#[test]
fn port_zero_is_never_an_answer() {
    let mut state = SupervisorState::new();
    assert!(state.register_process(SidecarProcess { pid: 10 }));
    assert!(!state.publish_port(0));
    assert_eq!(state.get_sidecar_port(), Err(QueryError::NotAvailable));
    assert!(state.publish_port(1));
    assert_eq!(state.get_sidecar_port(), Ok(1));
}

#[test]
fn query_errors_have_their_messages() {
    assert_eq!(QueryError::NotAvailable.message(), "Sidecar port not available");
    let poisoned = QueryError::LockFailed { reason: "poisoned lock".to_string() };
    assert_eq!(poisoned.message(), "poisoned lock");
}
