//! The supervisor's state: the one sidecar process, if there is one, and the
//! port it reported. The host guards it with one lock; the launch sequence
//! writes it, queries and the shutdown read it.

use vstd::prelude::*;
use vstd::string::*;
use crate::handshake::{
    has_port_prefix, law_first_handshake_line_decides, port_text, reader_run, ReaderAction,
    ReaderPhase,
};
use crate::launch::{conclude_handshake_spec, HandshakeWait, LaunchError};
use crate::port::parse_port_spec;
use crate::shutdown::{is_kill_command, kill_process_tree, KillCommand, Platform};

verus! {

/// The sidecar's process, known by its identifier.
#[derive(Clone, Copy, Debug, PartialEq, Eq, Structural)]
pub struct SidecarProcess {
    /// The operating system's identifier of the process.
    pub pid: u32,
}

/// Why a query for the port has no answer.
#[derive(Debug, PartialEq, Eq)]
pub enum QueryError {
    /// No port is known: the handshake has not come to its end.
    NotAvailable,
    /// The lock that guards the state could not be taken.
    LockFailed { reason: String },
}

impl QueryError {
    /// The message that describes the failure.
    pub open spec fn message_spec(self) -> Seq<char> {
        match self {
            QueryError::NotAvailable => "Sidecar port not available"@,
            QueryError::LockFailed { reason } => reason@,
        }
    }

    /// The message that describes the failure.
    pub fn message(&self) -> (text: String)
        ensures
            text@ == self.message_spec(),
    {
        match self {
            QueryError::NotAvailable => String::from_str("Sidecar port not available"),
            QueryError::LockFailed { reason } => reason.clone(),
        }
    }
}

/// What the supervisor's state holds. Port 0 stands for "not yet known".
pub struct SupervisorModel {
    /// The sidecar's process, from its registration until the shutdown.
    pub process: Option<SidecarProcess>,
    /// The port that the sidecar reported, or 0.
    pub port: u16,
}

/// The state before the launch.
pub open spec fn initial_model() -> SupervisorModel {
    SupervisorModel { process: None, port: 0 }
}

/// Whether a process can be registered: none is there, and none has ever
/// reported a port.
pub open spec fn can_register(model: SupervisorModel) -> bool {
    model.process is None && model.port == 0
}

/// Whether `port` can be published: it is a port, a process is there, and no
/// port is known yet.
pub open spec fn can_publish(model: SupervisorModel, port: u16) -> bool {
    model.process is Some && model.port == 0 && port != 0
}

/// The state after an attempt to register `process`.
pub open spec fn register_spec(model: SupervisorModel, process: SidecarProcess) -> SupervisorModel {
    if can_register(model) {
        SupervisorModel { process: Some(process), port: model.port }
    } else {
        model
    }
}

/// The state after an attempt to publish `port`.
pub open spec fn publish_spec(model: SupervisorModel, port: u16) -> SupervisorModel {
    if can_publish(model, port) {
        SupervisorModel { process: model.process, port }
    } else {
        model
    }
}

/// The state after a shutdown: the process is gone, the port stays.
pub open spec fn shutdown_spec(model: SupervisorModel) -> SupervisorModel {
    SupervisorModel { process: None, port: model.port }
}

/// The answer to a query for the port.
pub open spec fn query_spec(model: SupervisorModel) -> Result<u16, QueryError> {
    if model.port == 0 {
        Err(QueryError::NotAvailable)
    } else {
        Ok(model.port)
    }
}

/// An operation that changes the state, or may.
pub enum SupervisorOp {
    /// An attempt to register a process.
    Register(SidecarProcess),
    /// An attempt to publish a port.
    Publish(u16),
    /// A shutdown.
    Shutdown,
}

/// The state after one operation.
pub open spec fn apply_op(model: SupervisorModel, op: SupervisorOp) -> SupervisorModel {
    match op {
        SupervisorOp::Register(process) => register_spec(model, process),
        SupervisorOp::Publish(port) => publish_spec(model, port),
        SupervisorOp::Shutdown => shutdown_spec(model),
    }
}

/// The state after a sequence of operations, in their order.
pub open spec fn apply_ops(model: SupervisorModel, ops: Seq<SupervisorOp>) -> SupervisorModel
    decreases ops.len(),
{
    if ops.len() == 0 {
        model
    } else {
        apply_op(apply_ops(model, ops.drop_last()), ops.last())
    }
}

/// An event of the host's window, as far as the supervisor tells them apart.
#[derive(Clone, Copy, Debug, PartialEq, Eq, Structural)]
pub enum WindowEvent {
    /// The window is asked to close.
    CloseRequested,
    /// Any other event.
    Other,
}

/// The supervisor's state.
#[derive(Debug)]
pub struct SupervisorState {
    process: Option<SidecarProcess>,
    port: u16,
}

impl View for SupervisorState {
    type V = SupervisorModel;

    closed spec fn view(&self) -> SupervisorModel {
        SupervisorModel { process: self.process, port: self.port }
    }
}

impl SupervisorState {
    /// The state at the application's start: no process, no port.
    pub fn new() -> (state: Self)
        ensures
            state@ == initial_model(),
    {
        SupervisorState { process: None, port: 0 }
    }

    /// The process that is registered, if one is.
    pub fn process(&self) -> (process: Option<SidecarProcess>)
        ensures
            process == self@.process,
    {
        self.process
    }

    /// Registers the sidecar's process, as soon as it is spawned, so that a
    /// shutdown at any later moment finds it. Refused, with the state
    /// unchanged, where a process is already there or a port is known.
    pub fn register_process(&mut self, process: SidecarProcess) -> (accepted: bool)
        ensures
            accepted == can_register(old(self)@),
            final(self)@ == register_spec(old(self)@, process),
    {
        if self.process.is_none() && self.port == 0 {
            self.process = Some(process);
            true
        } else {
            false
        }
    }

    /// Publishes the port that the handshake delivered. Refused, with the
    /// state unchanged, where the port is 0, no process is registered, or a
    /// port is already known: a known port never changes.
    pub fn publish_port(&mut self, port: u16) -> (accepted: bool)
        ensures
            accepted == can_publish(old(self)@, port),
            final(self)@ == publish_spec(old(self)@, port),
    {
        if self.process.is_some() && self.port == 0 && port != 0 {
            self.port = port;
            true
        } else {
            false
        }
    }

    /// The port that the sidecar bound to. Fails while no port is known, and
    /// never gives 0.
    pub fn get_sidecar_port(&self) -> (r: Result<u16, QueryError>)
        ensures
            r == query_spec(self@),
    {
        if self.port == 0 {
            Err(QueryError::NotAvailable)
        } else {
            Ok(self.port)
        }
    }

    /// Shuts the sidecar down: takes the process out of the state and gives
    /// the command that kills it with all its descendants. Without a process
    /// nothing changes and there is nothing to run. The port stays.
    pub fn shutdown(&mut self, platform: Platform) -> (command: Option<KillCommand>)
        ensures
            final(self)@ == shutdown_spec(old(self)@),
            match old(self)@.process {
                Some(process) => command matches Some(kill) && is_kill_command(
                    kill,
                    platform,
                    process.pid as nat,
                ),
                None => command is None && final(self)@ == old(self)@,
            },
    {
        match self.process {
            Some(process) => {
                self.process = None;
                Some(kill_process_tree(platform, process.pid))
            },
            None => None,
        }
    }

    /// Answers an event of the host's window: a request to close shuts the
    /// sidecar down, any other event changes nothing.
    pub fn on_window_event(&mut self, event: WindowEvent, platform: Platform) -> (command: Option<
        KillCommand,
    >)
        ensures
            event == WindowEvent::Other ==> command is None && final(self)@ == old(self)@,
            event == WindowEvent::CloseRequested ==> final(self)@ == shutdown_spec(old(self)@)
                && match old(self)@.process {
                Some(process) => command matches Some(kill) && is_kill_command(
                    kill,
                    platform,
                    process.pid as nat,
                ),
                None => command is None,
            },
    {
        match event {
            WindowEvent::CloseRequested => self.shutdown(platform),
            WindowEvent::Other => None,
        }
    }
}

/// A port, once known, stays: no sequence of operations changes it, so every
/// later query gives the same port.
pub proof fn law_known_port_is_stable(model: SupervisorModel, ops: Seq<SupervisorOp>)
    requires
        model.port != 0,
    ensures
        apply_ops(model, ops).port == model.port,
        query_spec(apply_ops(model, ops)) == Ok::<u16, QueryError>(model.port),
    decreases ops.len(),
{
    if ops.len() > 0 {
        law_known_port_is_stable(model, ops.drop_last());
    }
}

/// Until a port is published, queries fail: whatever else happens in a
/// sequence of operations that publishes no port, the port is not available
/// after it.
pub proof fn law_not_available_before_handshake(ops: Seq<SupervisorOp>)
    requires
        forall|i: int|
            0 <= i < ops.len() ==> (#[trigger] ops[i] matches SupervisorOp::Publish(port)
                ==> port == 0),
    ensures
        query_spec(apply_ops(initial_model(), ops)) == Err::<u16, QueryError>(
            QueryError::NotAvailable,
        ),
    decreases ops.len(),
{
    if ops.len() > 0 {
        let shorter = ops.drop_last();
        assert forall|i: int| 0 <= i < shorter.len() implies (#[trigger] shorter[i] matches SupervisorOp::Publish(
            port,
        ) ==> port == 0) by {
            assert(shorter[i] == ops[i]);
        }
        law_not_available_before_handshake(shorter);
        assert(ops.last() == ops[ops.len() - 1]);
    }
}

/// A port that is accepted is the answer of the next query, exactly.
pub proof fn law_query_returns_published_port(model: SupervisorModel, port: u16)
    requires
        can_publish(model, port),
    ensures
        query_spec(publish_spec(model, port)) == Ok::<u16, QueryError>(port),
{
}

/// From the sidecar's output to the answer of a query: where the first line
/// that begins with `PORT=` holds a port other than 0, the reader delivers
/// that port, the launch succeeds with it, and once it is published for the
/// registered process every query answers with exactly that port, whatever
/// happens afterwards.
pub proof fn law_query_answers_the_reported_port(
    lines: Seq<Seq<u8>>,
    first: int,
    process: SidecarProcess,
    later: Seq<SupervisorOp>,
)
    requires
        0 <= first < lines.len(),
        has_port_prefix(lines[first]),
        forall|i: int| 0 <= i < first ==> !has_port_prefix(#[trigger] lines[i]),
        parse_port_spec(port_text(lines[first])) matches Ok(port) && port != 0,
    ensures
        ({
            let port = parse_port_spec(port_text(lines[first]))->Ok_0;
            let launched = publish_spec(register_spec(initial_model(), process), port);
            &&& reader_run(ReaderPhase::Waiting, lines).1[first] == ReaderAction::Deliver(port)
            &&& conclude_handshake_spec(HandshakeWait::Delivered(port)) == Ok::<u16, LaunchError>(
                port,
            )
            &&& launched.process == Some(process)
            &&& query_spec(launched) == Ok::<u16, QueryError>(port)
            &&& query_spec(apply_ops(launched, later)) == Ok::<u16, QueryError>(port)
        }),
{
    let port = parse_port_spec(port_text(lines[first]))->Ok_0;
    law_first_handshake_line_decides(lines, first);
    law_known_port_is_stable(publish_spec(register_spec(initial_model(), process), port), later);
}

/// A shutdown without a process changes nothing, so a second shutdown
/// changes nothing either: after the first no process is left to kill.
pub proof fn law_shutdown_is_idempotent(model: SupervisorModel)
    ensures
        model.process is None ==> shutdown_spec(model) == model,
        shutdown_spec(model).process is None,
        shutdown_spec(shutdown_spec(model)) == shutdown_spec(model),
{
}

} // verus!
