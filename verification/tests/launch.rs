use sidecar_supervisor::command::StreamTarget;
use sidecar_supervisor::launch::{
    check_bundled_executable, conclude_handshake, find_project_root, plan_launch, HandshakeWait,
    LaunchCommand, LaunchError, LaunchMode,
};
use sidecar_supervisor::port::PortParseError;

#[test]
fn project_root_is_the_nearest_directory_with_the_marker() {
    assert_eq!(find_project_root(&[true]), Ok(0));
    assert_eq!(find_project_root(&[true, true, true]), Ok(0));
    assert_eq!(find_project_root(&[false, true]), Ok(1));
    assert_eq!(find_project_root(&[false, false, true, false, true]), Ok(2));
    assert_eq!(find_project_root(&[false, false, false, true]), Ok(3));
}

#[test]
fn project_root_is_missing_without_a_marker() {
    assert_eq!(find_project_root(&[]), Err(LaunchError::ProjectRootNotFound));
    assert_eq!(find_project_root(&[false]), Err(LaunchError::ProjectRootNotFound));
    assert_eq!(
        find_project_root(&[false, false, false, false]),
        Err(LaunchError::ProjectRootNotFound)
    );
}

#[test]
fn bundled_executable_must_exist() {
    assert_eq!(check_bundled_executable(true), Ok(()));
    assert_eq!(check_bundled_executable(false), Err(LaunchError::SidecarBinaryMissing));
}

#[test]
fn development_plan_runs_the_module() {
    let plan = plan_launch(LaunchMode::Development);
    assert_eq!(plan.stdout, StreamTarget::Piped);
    assert_eq!(plan.stderr, StreamTarget::Inherited);
    assert_eq!(
        plan.command,
        LaunchCommand::Module {
            runner: "uv".to_string(),
            args: vec!["run".to_string(), "-m".to_string(), "app".to_string()],
            marker: "pyproject.toml".to_string(),
            path_variable: "PYTHONPATH".to_string(),
            source_dir: "src".to_string(),
        }
    );
}

#[test]
fn packaged_plan_runs_the_bundled_executable() {
    let plan = plan_launch(LaunchMode::Packaged);
    assert_eq!(plan.stdout, StreamTarget::Piped);
    assert_eq!(plan.stderr, StreamTarget::Inherited);
    assert_eq!(
        plan.command,
        LaunchCommand::Bundled {
            directory: "sidecar".to_string(),
            executable: "nomen-sidecar.exe".to_string(),
        }
    );
}

#[test]
fn every_launch_error_has_its_message() {
    assert_eq!(LaunchError::CurrentDirUnavailable.message(), "Failed to get current dir");
    assert_eq!(
        LaunchError::ProjectRootNotFound.message(),
        "Could not find project root (pyproject.toml)"
    );
    assert_eq!(
        LaunchError::ResourceDirUnavailable.message(),
        "Failed to get resource directory"
    );
    assert_eq!(LaunchError::SidecarBinaryMissing.message(), "Sidecar binary not found");
    assert_eq!(
        LaunchError::SpawnFailed(LaunchMode::Development).message(),
        "Failed to spawn sidecar \u{2014} is `uv` installed?"
    );
    assert_eq!(
        LaunchError::SpawnFailed(LaunchMode::Packaged).message(),
        "Failed to spawn sidecar binary"
    );
    assert_eq!(LaunchError::StdoutNotCaptured.message(), "Failed to capture sidecar stdout");
    assert_eq!(
        LaunchError::InvalidPort(PortParseError::Empty).message(),
        "Sidecar printed invalid port: cannot parse integer from empty string"
    );
    assert_eq!(
        LaunchError::InvalidPort(PortParseError::InvalidDigit).message(),
        "Sidecar printed invalid port: invalid digit found in string"
    );
    assert_eq!(
        LaunchError::InvalidPort(PortParseError::Overflow).message(),
        "Sidecar printed invalid port: number too large to fit in target type"
    );
    assert_eq!(
        LaunchError::HandshakeTimeout.message(),
        "Sidecar did not report port within 30s"
    );
}

#[test]
fn wait_ends_with_the_port_or_a_fatal_error() {
    assert_eq!(conclude_handshake(HandshakeWait::Delivered(5173)), Ok(5173));
    assert_eq!(conclude_handshake(HandshakeWait::Delivered(0)), Ok(0));
    assert_eq!(conclude_handshake(HandshakeWait::Delivered(65535)), Ok(65535));
    assert_eq!(
        conclude_handshake(HandshakeWait::Aborted(PortParseError::Empty)),
        Err(LaunchError::InvalidPort(PortParseError::Empty))
    );
    assert_eq!(
        conclude_handshake(HandshakeWait::TimedOut),
        Err(LaunchError::HandshakeTimeout)
    );
    assert_eq!(
        conclude_handshake(HandshakeWait::Disconnected),
        Err(LaunchError::HandshakeTimeout)
    );
}
