//! The startup handshake: the sidecar reports the port it bound to in the
//! first line of its output that begins with `PORT=`. The reader of that
//! output delivers the port once and discards every other line, for as long
//! as output arrives.

use vstd::prelude::*;
use vstd::slice::slice_subrange;
use crate::port::{parse_port, parse_port_spec, PortParseError};

verus! {

/// The bytes `PORT=`, with which the handshake line begins.
pub open spec fn port_prefix() -> Seq<u8> {
    seq![0x50u8, 0x4fu8, 0x52u8, 0x54u8, 0x3du8]
}

/// Whether `line` begins with `PORT=`.
pub open spec fn has_port_prefix(line: Seq<u8>) -> bool {
    port_prefix().is_prefix_of(line)
}

/// What follows `PORT=` in a line that begins with it.
pub open spec fn port_text(line: Seq<u8>) -> Seq<u8> {
    line.skip(port_prefix().len() as int)
}

/// What a line of the sidecar's output is to the handshake.
#[derive(Clone, Copy, Debug, PartialEq, Eq, Structural)]
pub enum LineKind {
    /// The line does not begin with `PORT=`.
    Other,
    /// The line reports this port.
    Port(u16),
    /// The line begins with `PORT=`, and what follows is no port number.
    Malformed(PortParseError),
}

/// The kind of a line, without its line terminator.
pub open spec fn classify_line_spec(line: Seq<u8>) -> LineKind {
    if !has_port_prefix(line) {
        LineKind::Other
    } else {
        match parse_port_spec(port_text(line)) {
            Ok(port) => LineKind::Port(port),
            Err(error) => LineKind::Malformed(error),
        }
    }
}

/// A line as it was read, without the line terminator at its end: a line
/// feed, or a carriage return and a line feed. A last line that the output
/// did not terminate is left as it is.
pub open spec fn without_line_end(raw: Seq<u8>) -> Seq<u8> {
    let n = raw.len() as int;
    if n >= 2 && raw[n - 2] == 0x0d && raw[n - 1] == 0x0a {
        raw.take(n - 2)
    } else if n >= 1 && raw[n - 1] == 0x0a {
        raw.take(n - 1)
    } else {
        raw
    }
}

/// Takes the line terminator off the end of a line as it was read.
pub fn trim_line_end(raw: &[u8]) -> (line: &[u8])
    ensures
        line@ == without_line_end(raw@),
{
    let n = raw.len();
    if n >= 2 && raw[n - 2] == 0x0d && raw[n - 1] == 0x0a {
        slice_subrange(raw, 0, n - 2)
    } else if n >= 1 && raw[n - 1] == 0x0a {
        slice_subrange(raw, 0, n - 1)
    } else {
        raw
    }
}

/// Tells whether `line` begins with `PORT=`.
pub fn starts_with_port_prefix(line: &[u8]) -> (r: bool)
    ensures
        r == has_port_prefix(line@),
{
    let r = line.len() >= 5 && line[0] == 0x50 && line[1] == 0x4f && line[2] == 0x52 && line[3]
        == 0x54 && line[4] == 0x3d;
    proof {
        let prefix = port_prefix();
        if r {
            assert(prefix =~= line@.subrange(0, 5));
        } else if line@.len() >= 5 {
            let head = line@.subrange(0, 5);
            assert(head[0] == line@[0] && head[1] == line@[1] && head[2] == line@[2] && head[3]
                == line@[3] && head[4] == line@[4]);
            assert(prefix[0] == 0x50 && prefix[1] == 0x4f && prefix[2] == 0x52 && prefix[3]
                == 0x54 && prefix[4] == 0x3d);
        }
    }
    r
}

/// Classifies one line of output, given without its line terminator.
pub fn classify_line(line: &[u8]) -> (kind: LineKind)
    ensures
        kind == classify_line_spec(line@),
{
    if !starts_with_port_prefix(line) {
        return LineKind::Other;
    }
    let text = slice_subrange(line, 5, line.len());
    assert(text@ =~= port_text(line@));
    match parse_port(text) {
        Ok(port) => LineKind::Port(port),
        Err(error) => LineKind::Malformed(error),
    }
}

/// How far the reader of the sidecar's output has come.
#[derive(Clone, Copy, Debug, PartialEq, Eq, Structural)]
pub enum ReaderPhase {
    /// No line has begun with `PORT=` yet.
    Waiting,
    /// The port has been delivered; all further output is discarded.
    Draining,
    /// The handshake line was malformed; the launch has failed.
    Failed,
}

/// What the reader's driver does once the reader has seen an event.
#[derive(Clone, Copy, Debug, PartialEq, Eq, Structural)]
pub enum ReaderAction {
    /// Drop the line and read the next one.
    Discard,
    /// Hand this port to the launch sequence, then read the next line.
    Deliver(u16),
    /// Report this failure to the launch sequence, which is fatal to it, and
    /// end the task.
    Abort(PortParseError),
    /// End the task: no more output can be read.
    Stop,
}

/// Whether the driver reads on after an action.
pub open spec fn keeps_reading(action: ReaderAction) -> bool {
    action is Discard || action is Deliver
}

/// What a read from the sidecar's output gave.
#[derive(Clone, Copy, Debug)]
pub enum ReaderEvent<'a> {
    /// A line, without its line terminator.
    Line(&'a [u8]),
    /// The output has closed.
    EndOfOutput,
    /// The read failed.
    ReadError,
}

/// One step of the reader: the phase after a line, and what to do with it.
pub open spec fn reader_step(phase: ReaderPhase, line: Seq<u8>) -> (ReaderPhase, ReaderAction) {
    if phase == ReaderPhase::Waiting {
        match classify_line_spec(line) {
            LineKind::Other => (ReaderPhase::Waiting, ReaderAction::Discard),
            LineKind::Port(port) => (ReaderPhase::Draining, ReaderAction::Deliver(port)),
            LineKind::Malformed(error) => (ReaderPhase::Failed, ReaderAction::Abort(error)),
        }
    } else {
        (phase, ReaderAction::Discard)
    }
}

/// One step of the reader on any event: a line is taken as `reader_step`
/// says; the end of the output and a failed read end the task.
pub open spec fn reader_event_step(phase: ReaderPhase, event: ReaderEvent) -> (
    ReaderPhase,
    ReaderAction,
) {
    match event {
        ReaderEvent::Line(line) => reader_step(phase, line@),
        ReaderEvent::EndOfOutput => (phase, ReaderAction::Stop),
        ReaderEvent::ReadError => (phase, ReaderAction::Stop),
    }
}

/// The reader over a whole sequence of lines: the phase it ends in, and its
/// action for each line in turn.
pub open spec fn reader_run(phase: ReaderPhase, lines: Seq<Seq<u8>>) -> (
    ReaderPhase,
    Seq<ReaderAction>,
)
    decreases lines.len(),
{
    if lines.len() == 0 {
        (phase, Seq::empty())
    } else {
        let (before, actions) = reader_run(phase, lines.drop_last());
        let (after, action) = reader_step(before, lines.last());
        (after, actions.push(action))
    }
}

/// The state of the task that reads the sidecar's output.
#[derive(Debug)]
pub struct HandshakeReader {
    phase: ReaderPhase,
}

impl View for HandshakeReader {
    type V = ReaderPhase;

    closed spec fn view(&self) -> ReaderPhase {
        self.phase
    }
}

impl HandshakeReader {
    /// A reader that has seen no output.
    pub fn new() -> (reader: Self)
        ensures
            reader@ == ReaderPhase::Waiting,
    {
        HandshakeReader { phase: ReaderPhase::Waiting }
    }

    /// The reader's phase.
    pub fn phase(&self) -> (phase: ReaderPhase)
        ensures
            phase == self@,
    {
        self.phase
    }

    /// Whether the port has been delivered.
    pub fn port_sent(&self) -> (sent: bool)
        ensures
            sent == (self@ == ReaderPhase::Draining),
    {
        self.phase == ReaderPhase::Draining
    }

    /// Takes the next line of output, without its line terminator, and says
    /// what to do with it. Only while the reader waits is the line looked at.
    pub fn on_line(&mut self, line: &[u8]) -> (action: ReaderAction)
        ensures
            (final(self)@, action) == reader_step(old(self)@, line@),
    {
        if self.phase == ReaderPhase::Waiting {
            match classify_line(line) {
                LineKind::Other => ReaderAction::Discard,
                LineKind::Port(port) => {
                    self.phase = ReaderPhase::Draining;
                    ReaderAction::Deliver(port)
                },
                LineKind::Malformed(error) => {
                    self.phase = ReaderPhase::Failed;
                    ReaderAction::Abort(error)
                },
            }
        } else {
            ReaderAction::Discard
        }
    }

    /// Takes what the next read gave and says what to do. The driver reads
    /// on after every line but a malformed handshake line, and ends the task
    /// when the output has closed or a read has failed.
    pub fn on_event(&mut self, event: ReaderEvent<'_>) -> (action: ReaderAction)
        ensures
            (final(self)@, action) == reader_event_step(old(self)@, event),
            keeps_reading(action) <==> (event matches ReaderEvent::Line(line) && !(old(self)@
                == ReaderPhase::Waiting && classify_line_spec(line@) is Malformed)),
    {
        match event {
            ReaderEvent::Line(line) => self.on_line(line),
            ReaderEvent::EndOfOutput => ReaderAction::Stop,
            ReaderEvent::ReadError => ReaderAction::Stop,
        }
    }
}

/// The reader never stops of itself while lines arrive: for a line its
/// action is to discard, to deliver or, once, to abort.
pub proof fn law_lines_never_stop_the_reader(phase: ReaderPhase, line: Seq<u8>)
    ensures
        reader_step(phase, line).1 != ReaderAction::Stop,
        phase != ReaderPhase::Waiting ==> reader_step(phase, line) == (
            phase,
            ReaderAction::Discard,
        ),
        keeps_reading(reader_step(phase, line).1) <==> !(phase == ReaderPhase::Waiting
            && classify_line_spec(line) is Malformed),
{
}

/// The reader answers every line: it has one action for each line, however
/// many arrive and in whatever phase it starts. A reader that does not wait
/// stays in its phase and discards them all.
pub proof fn law_reader_answers_every_line(phase: ReaderPhase, lines: Seq<Seq<u8>>)
    ensures
        reader_run(phase, lines).1.len() == lines.len(),
        phase != ReaderPhase::Waiting ==> reader_run(phase, lines).0 == phase && forall|i: int|
            0 <= i < lines.len() ==> #[trigger] reader_run(phase, lines).1[i]
                == ReaderAction::Discard,
    decreases lines.len(),
{
    if lines.len() > 0 {
        law_reader_answers_every_line(phase, lines.drop_last());
    }
}

/// The reader acts at most once: of any two lines, at least one is
/// discarded. So a port is delivered at most once, and never after a failure.
/// A reader that has acted no longer waits.
pub proof fn law_reader_acts_at_most_once(phase: ReaderPhase, lines: Seq<Seq<u8>>)
    ensures
        forall|i: int, j: int|
            0 <= i < j < lines.len() ==> #[trigger] reader_run(phase, lines).1[i]
                == ReaderAction::Discard || #[trigger] reader_run(phase, lines).1[j]
                == ReaderAction::Discard,
        forall|i: int|
            0 <= i < lines.len() && #[trigger] reader_run(phase, lines).1[i]
                != ReaderAction::Discard ==> reader_run(phase, lines).0 != ReaderPhase::Waiting,
    decreases lines.len(),
{
    law_reader_answers_every_line(phase, lines);
    if lines.len() > 0 {
        let shorter = lines.drop_last();
        law_reader_acts_at_most_once(phase, shorter);
        law_reader_answers_every_line(phase, shorter);
        let (before, actions) = reader_run(phase, shorter);
        let all = reader_run(phase, lines).1;
        assert forall|i: int, j: int| 0 <= i < j < lines.len() implies #[trigger] all[i]
            == ReaderAction::Discard || #[trigger] all[j] == ReaderAction::Discard by {
            assert(all[i] == actions[i]);
            if j < shorter.len() {
                assert(all[j] == actions[j]);
            }
        }
        assert forall|i: int|
            0 <= i < lines.len() && #[trigger] all[i]
                != ReaderAction::Discard implies reader_run(phase, lines).0
            != ReaderPhase::Waiting by {
            if i < shorter.len() {
                assert(all[i] == actions[i]);
            }
        }
    }
}

/// Without a line that begins with `PORT=`, a waiting reader discards every
/// line and goes on waiting: no port is ever delivered.
pub proof fn law_no_handshake_line(lines: Seq<Seq<u8>>)
    requires
        forall|i: int| 0 <= i < lines.len() ==> !has_port_prefix(#[trigger] lines[i]),
    ensures
        reader_run(ReaderPhase::Waiting, lines).0 == ReaderPhase::Waiting,
        reader_run(ReaderPhase::Waiting, lines).1.len() == lines.len(),
        forall|i: int|
            0 <= i < lines.len() ==> #[trigger] reader_run(ReaderPhase::Waiting, lines).1[i]
                == ReaderAction::Discard,
    decreases lines.len(),
{
    if lines.len() > 0 {
        let shorter = lines.drop_last();
        assert forall|i: int| 0 <= i < shorter.len() implies !has_port_prefix(
            #[trigger] shorter[i],
        ) by {
            assert(shorter[i] == lines[i]);
        }
        law_no_handshake_line(shorter);
        assert(!has_port_prefix(lines[lines.len() - 1]));
    }
}

/// The first line that begins with `PORT=` decides the handshake, whatever
/// comes before and after it. If what follows the prefix is a port number,
/// that port is delivered at that line and the reader drains; if not, the
/// reader fails at that line with the reason. Every other line is discarded.
pub proof fn law_first_handshake_line_decides(lines: Seq<Seq<u8>>, first: int)
    requires
        0 <= first < lines.len(),
        has_port_prefix(lines[first]),
        forall|i: int| 0 <= i < first ==> !has_port_prefix(#[trigger] lines[i]),
    ensures
        reader_run(ReaderPhase::Waiting, lines).1.len() == lines.len(),
        forall|i: int|
            0 <= i < lines.len() && i != first ==> #[trigger] reader_run(
                ReaderPhase::Waiting,
                lines,
            ).1[i] == ReaderAction::Discard,
        match parse_port_spec(port_text(lines[first])) {
            Ok(port) => reader_run(ReaderPhase::Waiting, lines).1[first] == ReaderAction::Deliver(
                port,
            ) && reader_run(ReaderPhase::Waiting, lines).0 == ReaderPhase::Draining,
            Err(error) => reader_run(ReaderPhase::Waiting, lines).1[first] == ReaderAction::Abort(
                error,
            ) && reader_run(ReaderPhase::Waiting, lines).0 == ReaderPhase::Failed,
        },
    decreases lines.len(),
{
    let shorter = lines.drop_last();
    let (before, actions) = reader_run(ReaderPhase::Waiting, shorter);
    if first == lines.len() - 1 {
        assert forall|i: int| 0 <= i < shorter.len() implies !has_port_prefix(
            #[trigger] shorter[i],
        ) by {
            assert(shorter[i] == lines[i]);
        }
        law_no_handshake_line(shorter);
    } else {
        assert(shorter[first] == lines[first]);
        assert forall|i: int| 0 <= i < first implies !has_port_prefix(#[trigger] shorter[i]) by {
            assert(shorter[i] == lines[i]);
        }
        law_first_handshake_line_decides(shorter, first);
    }
    let all = reader_run(ReaderPhase::Waiting, lines).1;
    assert forall|i: int| 0 <= i < lines.len() && i != first implies #[trigger] all[i]
        == ReaderAction::Discard by {
        if i < shorter.len() {
            assert(all[i] == actions[i]);
        }
    }
}

} // verus!
