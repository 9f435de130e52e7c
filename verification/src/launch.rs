//! The launch sequence: how the sidecar is started in each build mode, where
//! the project root lies, how the wait for the handshake ends, and the error
//! that each fatal condition gives. No condition is retried.

use vstd::prelude::*;
use vstd::string::*;
use crate::command::{texts, StreamTarget};
use crate::port::PortParseError;

verus! {

/// How the shell was built, which decides how the sidecar is started.
#[derive(Clone, Copy, Debug, PartialEq, Eq, Structural)]
pub enum LaunchMode {
    /// From the project's sources, through the interpreter's runner.
    Development,
    /// As the executable bundled with the installed application.
    Packaged,
}

/// The seconds that the launch sequence waits for the handshake.
pub const HANDSHAKE_TIMEOUT_SECS: u64 = 30;

/// A fatal condition of the launch. The application shows no window after one.
#[derive(Clone, Copy, Debug, PartialEq, Eq, Structural)]
pub enum LaunchError {
    /// The working directory could not be determined.
    CurrentDirUnavailable,
    /// No directory from the working directory upward holds the marker file.
    ProjectRootNotFound,
    /// The installed application's resource directory could not be determined.
    ResourceDirUnavailable,
    /// The bundled executable is not where the package should have put it.
    SidecarBinaryMissing,
    /// The operating system did not start the program, in this mode.
    SpawnFailed(LaunchMode),
    /// The spawned process has no output stream that can be read.
    StdoutNotCaptured,
    /// The handshake line held no port number.
    InvalidPort(PortParseError),
    /// No port was reported within the time allowed.
    HandshakeTimeout,
}

impl LaunchError {
    /// The message that describes the failure.
    pub open spec fn message_spec(self) -> Seq<char> {
        match self {
            LaunchError::CurrentDirUnavailable => "Failed to get current dir"@,
            LaunchError::ProjectRootNotFound => "Could not find project root (pyproject.toml)"@,
            LaunchError::ResourceDirUnavailable => "Failed to get resource directory"@,
            LaunchError::SidecarBinaryMissing => "Sidecar binary not found"@,
            LaunchError::SpawnFailed(LaunchMode::Development) => "Failed to spawn sidecar \u{2014} is `uv` installed?"@,
            LaunchError::SpawnFailed(LaunchMode::Packaged) => "Failed to spawn sidecar binary"@,
            LaunchError::StdoutNotCaptured => "Failed to capture sidecar stdout"@,
            LaunchError::InvalidPort(error) => "Sidecar printed invalid port: "@
                + error.reason_spec(),
            LaunchError::HandshakeTimeout => "Sidecar did not report port within 30s"@,
        }
    }

    /// The message that describes the failure.
    pub fn message(&self) -> (text: String)
        ensures
            text@ == self.message_spec(),
    {
        match self {
            LaunchError::CurrentDirUnavailable => String::from_str("Failed to get current dir"),
            LaunchError::ProjectRootNotFound => String::from_str(
                "Could not find project root (pyproject.toml)",
            ),
            LaunchError::ResourceDirUnavailable => String::from_str(
                "Failed to get resource directory",
            ),
            LaunchError::SidecarBinaryMissing => String::from_str("Sidecar binary not found"),
            LaunchError::SpawnFailed(LaunchMode::Development) => String::from_str(
                "Failed to spawn sidecar \u{2014} is `uv` installed?",
            ),
            LaunchError::SpawnFailed(LaunchMode::Packaged) => String::from_str(
                "Failed to spawn sidecar binary",
            ),
            LaunchError::StdoutNotCaptured => String::from_str("Failed to capture sidecar stdout"),
            LaunchError::InvalidPort(error) => {
                let reason = error.reason();
                String::from_str("Sidecar printed invalid port: ").concat(reason.as_str())
            },
            LaunchError::HandshakeTimeout => String::from_str(
                "Sidecar did not report port within 30s",
            ),
        }
    }
}

/// Finds the project root among the working directory and its ancestors.
///
/// `marker_present` says of each of them, the working directory first and the
/// filesystem root last, whether it holds the marker file. The result is the
/// index of the nearest one that does.
pub fn find_project_root(marker_present: &[bool]) -> (r: Result<usize, LaunchError>)
    ensures
        match r {
            Ok(index) => index < marker_present@.len() && marker_present@[index as int]
                && forall|i: int| 0 <= i < index ==> !marker_present@[i],
            Err(error) => error == LaunchError::ProjectRootNotFound && forall|i: int|
                0 <= i < marker_present@.len() ==> !marker_present@[i],
        },
{
    let mut index: usize = 0;
    while index < marker_present.len()
        invariant
            index <= marker_present@.len(),
            forall|i: int| 0 <= i < index ==> !marker_present@[i],
        decreases marker_present@.len() - index,
    {
        if marker_present[index] {
            return Ok(index);
        }
        index += 1;
    }
    Err(LaunchError::ProjectRootNotFound)
}

/// Accepts the bundled executable if it exists where the package puts it.
pub fn check_bundled_executable(exists: bool) -> (r: Result<(), LaunchError>)
    ensures
        exists ==> r == Ok::<(), LaunchError>(()),
        !exists ==> r == Err::<(), LaunchError>(LaunchError::SidecarBinaryMissing),
{
    if exists {
        Ok(())
    } else {
        Err(LaunchError::SidecarBinaryMissing)
    }
}

/// The program to start, by build mode.
#[derive(Debug, PartialEq, Eq)]
pub enum LaunchCommand {
    /// Run the sidecar's module through a runner found on the search path.
    /// The project root is the nearest directory, from the working directory
    /// upward, that holds the file `marker`. The runner runs in the project
    /// root, with the environment variable `path_variable` set to the
    /// directory `source_dir` of the project root.
    Module {
        runner: String,
        args: Vec<String>,
        marker: String,
        path_variable: String,
        source_dir: String,
    },
    /// Run the file `executable` in the directory `directory` of the
    /// application's resource directory, without arguments.
    Bundled { directory: String, executable: String },
}

/// How to start the sidecar.
#[derive(Debug, PartialEq, Eq)]
pub struct LaunchPlan {
    /// The program and what it needs.
    pub command: LaunchCommand,
    /// Where the sidecar's standard output goes.
    pub stdout: StreamTarget,
    /// Where the sidecar's standard error goes.
    pub stderr: StreamTarget,
}

/// Whether `plan` is the plan for `mode`: in development `uv run -m app`
/// below the marker `pyproject.toml` with `PYTHONPATH` set to `src`; packaged,
/// `sidecar/nomen-sidecar.exe`. In both the output is piped to the host and
/// errors go to the host's own error stream.
pub open spec fn is_plan_for(plan: LaunchPlan, mode: LaunchMode) -> bool {
    &&& plan.stdout == StreamTarget::Piped
    &&& plan.stderr == StreamTarget::Inherited
    &&& match mode {
        LaunchMode::Development => {
            &&& plan.command matches LaunchCommand::Module {
                runner,
                args,
                marker,
                path_variable,
                source_dir,
            }
            &&& runner@ == "uv"@
            &&& texts(args@) == seq!["run"@, "-m"@, "app"@]
            &&& marker@ == "pyproject.toml"@
            &&& path_variable@ == "PYTHONPATH"@
            &&& source_dir@ == "src"@
        },
        LaunchMode::Packaged => {
            &&& plan.command matches LaunchCommand::Bundled { directory, executable }
            &&& directory@ == "sidecar"@
            &&& executable@ == "nomen-sidecar.exe"@
        },
    }
}

/// Plans the start of the sidecar in the given build mode.
pub fn plan_launch(mode: LaunchMode) -> (plan: LaunchPlan)
    ensures
        is_plan_for(plan, mode),
{
    let command = match mode {
        LaunchMode::Development => {
            let mut args: Vec<String> = Vec::new();
            args.push(String::from_str("run"));
            args.push(String::from_str("-m"));
            args.push(String::from_str("app"));
            assert(texts(args@) =~= seq!["run"@, "-m"@, "app"@]);
            LaunchCommand::Module {
                runner: String::from_str("uv"),
                args,
                marker: String::from_str("pyproject.toml"),
                path_variable: String::from_str("PYTHONPATH"),
                source_dir: String::from_str("src"),
            }
        },
        LaunchMode::Packaged => LaunchCommand::Bundled {
            directory: String::from_str("sidecar"),
            executable: String::from_str("nomen-sidecar.exe"),
        },
    };
    LaunchPlan { command, stdout: StreamTarget::Piped, stderr: StreamTarget::Inherited }
}

/// How the wait for the handshake ended.
#[derive(Clone, Copy, Debug, PartialEq, Eq, Structural)]
pub enum HandshakeWait {
    /// The reader delivered this port.
    Delivered(u16),
    /// The reader found the handshake line malformed.
    Aborted(PortParseError),
    /// The time allowed went by without word from the reader.
    TimedOut,
    /// The reader ended without having delivered a port, so none can come.
    Disconnected,
}

/// What the end of the wait means for the launch.
pub open spec fn conclude_handshake_spec(wait: HandshakeWait) -> Result<u16, LaunchError> {
    match wait {
        HandshakeWait::Delivered(port) => Ok(port),
        HandshakeWait::Aborted(error) => Err(LaunchError::InvalidPort(error)),
        HandshakeWait::TimedOut => Err(LaunchError::HandshakeTimeout),
        HandshakeWait::Disconnected => Err(LaunchError::HandshakeTimeout),
    }
}

/// Ends the launch sequence's wait: the port if one was delivered, else the
/// fatal error. A wait that ends without a port is not taken up again.
pub fn conclude_handshake(wait: HandshakeWait) -> (r: Result<u16, LaunchError>)
    ensures
        r == conclude_handshake_spec(wait),
{
    match wait {
        HandshakeWait::Delivered(port) => Ok(port),
        HandshakeWait::Aborted(error) => Err(LaunchError::InvalidPort(error)),
        HandshakeWait::TimedOut => Err(LaunchError::HandshakeTimeout),
        HandshakeWait::Disconnected => Err(LaunchError::HandshakeTimeout),
    }
}

} // verus!
