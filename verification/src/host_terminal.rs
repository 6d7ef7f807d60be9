//! The terminal of a host session: how it starts, how its input and output are
//! carried, and how it ends.

use crate::failure::{AuditError, IoFailure, ProtocolError, TerminalError};
use crate::host::{HostError, RelayAccessMode};
use crate::network::PeerId;
use vstd::prelude::*;

verus! {

// ---------------------------------------------------------------------------
// The framing of the terminal hello
// ---------------------------------------------------------------------------

/// The bytes of a terminal hello in front of its first name: the last of them is
/// the length of that name.
pub const HELLO_HEAD_LEN: usize = 6;

/// What the bytes read so far say of the hello that they begin.
#[derive(Debug, Clone, Copy, PartialEq, Eq, Structural)]
pub enum HelloFrame {
    /// The hello goes on for at least so many bytes, which are read next.
    Needs(usize),
    /// The hello is complete.
    Complete,
    /// The hello announces more than a hello may have.
    Invalid(ProtocolError),
}

/// Where the first name of a hello ends: there stands the length of the second.
pub open spec fn hello_split(bytes: Seq<u8>) -> int {
    HELLO_HEAD_LEN + bytes[HELLO_HEAD_LEN - 1]
}

/// The length of a hello as far as its bytes tell: the head, then the first name
/// and the length of the second, then the second name.
pub open spec fn hello_len(bytes: Seq<u8>) -> int {
    if bytes.len() < HELLO_HEAD_LEN {
        HELLO_HEAD_LEN as int
    } else if bytes.len() <= hello_split(bytes) {
        hello_split(bytes) + 1
    } else {
        hello_split(bytes) + 1 + bytes[hello_split(bytes)]
    }
}

/// How to go on reading a hello of which these bytes have been read, where a
/// hello has at most `max_len` bytes. An announced length is judged before
/// anything is read that it announces.
pub fn terminal_hello_frame(bytes: &[u8], max_len: usize) -> (frame: HelloFrame)
    requires
        HELLO_HEAD_LEN <= max_len,
    ensures
        frame == if hello_len(bytes@) > max_len {
            HelloFrame::Invalid(
                ProtocolError::InvalidLength {
                    expected: max_len,
                    actual: hello_len(bytes@) as usize,
                },
            )
        } else if bytes@.len() < hello_len(bytes@) {
            HelloFrame::Needs((hello_len(bytes@) - bytes@.len()) as usize)
        } else {
            HelloFrame::Complete
        },
{
    let len: usize = bytes.len();
    let mut wanted: usize = HELLO_HEAD_LEN;
    if len >= HELLO_HEAD_LEN {
        let split: usize = HELLO_HEAD_LEN + bytes[HELLO_HEAD_LEN - 1] as usize;
        wanted = split + 1;
        if len > split {
            wanted = split + 1 + bytes[split] as usize;
        }
    }
    if wanted > max_len {
        HelloFrame::Invalid(ProtocolError::InvalidLength { expected: max_len, actual: wanted })
    } else if len < wanted {
        HelloFrame::Needs(wanted - len)
    } else {
        HelloFrame::Complete
    }
}

// ---------------------------------------------------------------------------
// Starting the terminal
// ---------------------------------------------------------------------------

/// The SHA-256 digest of some bytes.
pub uninterp spec fn sha256(bytes: Seq<u8>) -> Seq<u8>;

/// `digest` of [`sha2::Sha256`]: the digest of the bytes, by which it is named.
#[verifier::external_body]
fn sha256_of(bytes: &[u8]) -> (digest: [u8; 32])
    ensures
        digest@ == sha256(bytes@),
{
    <sha2::Sha256 as sha2::Digest>::digest(bytes).into()
}

/// The digest that both sides of a session share of its terminal hello.
pub fn terminal_hello_digest(hello: &[u8]) -> (digest: [u8; 32])
    ensures
        digest@ == sha256(hello@),
{
    sha256_of(hello)
}

/// What the start of a terminal waits for.
#[derive(Debug, Clone, Copy, PartialEq, Eq)]
pub enum StartPhase {
    ReadingHello,
    /// The controller's audit stream.
    AwaitingAudit { digest: [u8; 32] },
    /// The audit to be established.
    Establishing { digest: [u8; 32] },
    /// The hello to be recorded.
    RecordingHello,
    /// The terminal to open.
    Opening,
    /// The terminal's readiness to be recorded.
    RecordingReady,
    /// The terminal's readiness to be told.
    WritingReady,
    /// The opened terminal to be cleaned up after a failure.
    CleaningUp(HostError),
    /// The directory that file requests are resolved against.
    CapturingBase,
    Finished,
}

/// What happened to the start of a terminal.
#[derive(Debug)]
pub enum StartEvent {
    /// The hello, as it is encoded.
    Hello(Result<Vec<u8>, HostError>),
    /// A peer opened an audit stream; none when the registration ended.
    AuditStream(Option<PeerId>),
    /// No audit stream came in time.
    AuditTimeout,
    Established(Result<(), HostError>),
    Recorded(Result<(), AuditError>),
    Opened(Result<(), TerminalError>),
    Written(Result<(), HostError>),
    CleanedUp,
    /// Whether the directory could be captured.
    Captured(bool),
}

/// A terminal that has started.
#[derive(Debug, Clone, Copy, PartialEq, Eq, Structural)]
pub struct Started {
    /// Whether the session is audited.
    pub audited: bool,
    /// Whether file requests can be resolved.
    pub files: bool,
}

/// What the start of a terminal wants done.
#[derive(Debug, Clone, Copy, PartialEq, Eq)]
pub enum StartAction {
    ReadHello,
    /// Wait for an audit stream; one that came from another peer is dropped.
    AwaitAudit,
    Establish { digest: [u8; 32] },
    RecordHello { digest: [u8; 32] },
    Open,
    RecordReady,
    WriteReady,
    CleanUp,
    CaptureBase,
    Finish(Result<Started, HostError>),
}

/// The event is one that can happen in the phase.
pub open spec fn start_awaits(phase: StartPhase, event: StartEvent) -> bool {
    match phase {
        StartPhase::ReadingHello => event is Hello,
        StartPhase::AwaitingAudit { .. } => event is AuditStream || event is AuditTimeout,
        StartPhase::Establishing { .. } => event is Established,
        StartPhase::RecordingHello | StartPhase::RecordingReady => event is Recorded,
        StartPhase::Opening => event is Opened,
        StartPhase::WritingReady => event is Written,
        StartPhase::CleaningUp(_) => event is CleanedUp,
        StartPhase::CapturingBase => event is Captured,
        StartPhase::Finished => false,
    }
}

/// The circumstances of a start.
#[derive(Debug, Clone, Copy, PartialEq, Eq, Structural)]
pub struct StartTerms {
    pub access: RelayAccessMode,
    /// Whether there is a directory for the audit.
    pub audit_root: bool,
    pub controller: PeerId,
}

impl StartTerms {
    /// The session is audited.
    pub open spec fn audited(self) -> bool {
        self.access == RelayAccessMode::Enterprise
    }
}

/// The start has failed.
pub open spec fn start_failed(error: HostError) -> (StartPhase, StartAction) {
    (StartPhase::Finished, StartAction::Finish(Err(error)))
}

/// What follows an event of a start. The terminal is opened only after the audit
/// was established, and is cleaned up when a later step fails.
pub open spec fn start_after(terms: StartTerms, phase: StartPhase, event: StartEvent) -> (
    StartPhase,
    StartAction,
) {
    match phase {
        StartPhase::ReadingHello => match event->Hello_0 {
            Err(error) => start_failed(error),
            Ok(hello) => if !terms.audited() {
                (StartPhase::Opening, StartAction::Open)
            } else if !terms.audit_root {
                start_failed(HostError::RelayAccessUnavailable)
            } else {
                (
                    StartPhase::AwaitingAudit { digest: hello_digest(hello@) },
                    StartAction::AwaitAudit,
                )
            },
        },
        StartPhase::AwaitingAudit { digest } => match event {
            StartEvent::AuditTimeout => start_failed(
                HostError::Audit(AuditError::PeerUnsupported),
            ),
            StartEvent::AuditStream(None) => start_failed(HostError::ProtocolRegistrationEnded),
            StartEvent::AuditStream(Some(peer)) => if peer == terms.controller {
                (StartPhase::Establishing { digest }, StartAction::Establish { digest })
            } else {
                (phase, StartAction::AwaitAudit)
            },
            _ => start_failed(HostError::ConnectionLost),
        },
        StartPhase::Establishing { digest } => match event->Established_0 {
            Ok(_) => (StartPhase::RecordingHello, StartAction::RecordHello { digest }),
            Err(error) => start_failed(error),
        },
        StartPhase::RecordingHello => match event->Recorded_0 {
            Ok(_) => (StartPhase::Opening, StartAction::Open),
            Err(error) => start_failed(HostError::Audit(error)),
        },
        StartPhase::Opening => match event->Opened_0 {
            Ok(_) => if terms.audited() {
                (StartPhase::RecordingReady, StartAction::RecordReady)
            } else {
                (StartPhase::WritingReady, StartAction::WriteReady)
            },
            Err(error) => start_failed(HostError::Terminal(error)),
        },
        StartPhase::RecordingReady => match event->Recorded_0 {
            Ok(_) => (StartPhase::WritingReady, StartAction::WriteReady),
            Err(error) => (
                StartPhase::CleaningUp(HostError::Audit(error)),
                StartAction::CleanUp,
            ),
        },
        StartPhase::WritingReady => match event->Written_0 {
            Ok(_) => (StartPhase::CapturingBase, StartAction::CaptureBase),
            Err(error) => (StartPhase::CleaningUp(error), StartAction::CleanUp),
        },
        StartPhase::CleaningUp(error) => start_failed(error),
        StartPhase::CapturingBase => (
            StartPhase::Finished,
            StartAction::Finish(
                Ok(Started { audited: terms.audited(), files: event->Captured_0 }),
            ),
        ),
        StartPhase::Finished => start_failed(HostError::ConnectionLost),
    }
}

/// The array that holds the digest of a hello.
pub open spec fn hello_digest(hello: Seq<u8>) -> [u8; 32] {
    choose|digest: [u8; 32]| digest@ == sha256(hello)
}

/// The start of one terminal.
pub struct TerminalStart {
    terms: StartTerms,
    phase: StartPhase,
}

impl TerminalStart {
    /// The circumstances of the start.
    pub closed spec fn under(self) -> StartTerms {
        self.terms
    }

    /// What the start waits for.
    pub closed spec fn at(self) -> StartPhase {
        self.phase
    }

    /// Begins with the controller's hello.
    pub fn new(terms: StartTerms) -> (begun: (Self, StartAction))
        ensures
            begun.0.under() == terms,
            begun.0.at() == StartPhase::ReadingHello,
            begun.1 == StartAction::ReadHello,
    {
        (TerminalStart { terms, phase: StartPhase::ReadingHello }, StartAction::ReadHello)
    }

    /// Takes an event into account and says what to do next.
    pub fn advance(&mut self, event: StartEvent) -> (action: StartAction)
        requires
            start_awaits(old(self).at(), event),
        ensures
            (final(self).at(), action) == start_after(old(self).under(), old(self).at(), event),
            final(self).under() == old(self).under(),
    {
        let (phase, action) = start_terminal(self.terms, self.phase, event);
        self.phase = phase;
        action
    }
}

fn fail_start(error: HostError) -> (next: (StartPhase, StartAction))
    ensures
        next == start_failed(error),
{
    (StartPhase::Finished, StartAction::Finish(Err(error)))
}

fn start_terminal(terms: StartTerms, phase: StartPhase, event: StartEvent) -> (next: (
    StartPhase,
    StartAction,
))
    requires
        start_awaits(phase, event),
    ensures
        next == start_after(terms, phase, event),
{
    let audited = terms.access == RelayAccessMode::Enterprise;
    match (phase, event) {
        (StartPhase::ReadingHello, StartEvent::Hello(Err(error))) => fail_start(error),
        (StartPhase::ReadingHello, StartEvent::Hello(Ok(hello))) => {
            if !audited {
                (StartPhase::Opening, StartAction::Open)
            } else if !terms.audit_root {
                fail_start(HostError::RelayAccessUnavailable)
            } else {
                let digest = terminal_hello_digest(hello.as_slice());
                assert(digest =~= hello_digest(hello@));
                (StartPhase::AwaitingAudit { digest }, StartAction::AwaitAudit)
            }
        },
        (StartPhase::AwaitingAudit { .. }, StartEvent::AuditTimeout) => fail_start(
            HostError::Audit(AuditError::PeerUnsupported),
        ),
        (StartPhase::AwaitingAudit { .. }, StartEvent::AuditStream(None)) => fail_start(
            HostError::ProtocolRegistrationEnded,
        ),
        (StartPhase::AwaitingAudit { digest }, StartEvent::AuditStream(Some(peer))) => {
            if peer == terms.controller {
                (StartPhase::Establishing { digest }, StartAction::Establish { digest })
            } else {
                (phase, StartAction::AwaitAudit)
            }
        },
        (StartPhase::Establishing { digest }, StartEvent::Established(Ok(()))) => (
            StartPhase::RecordingHello,
            StartAction::RecordHello { digest },
        ),
        (StartPhase::Establishing { .. }, StartEvent::Established(Err(error))) => fail_start(error),
        (StartPhase::RecordingHello, StartEvent::Recorded(Ok(()))) => (
            StartPhase::Opening,
            StartAction::Open,
        ),
        (StartPhase::RecordingHello, StartEvent::Recorded(Err(error))) => fail_start(
            HostError::Audit(error),
        ),
        (StartPhase::Opening, StartEvent::Opened(Ok(()))) => {
            if audited {
                (StartPhase::RecordingReady, StartAction::RecordReady)
            } else {
                (StartPhase::WritingReady, StartAction::WriteReady)
            }
        },
        (StartPhase::Opening, StartEvent::Opened(Err(error))) => fail_start(
            HostError::Terminal(error),
        ),
        (StartPhase::RecordingReady, StartEvent::Recorded(Ok(()))) => (
            StartPhase::WritingReady,
            StartAction::WriteReady,
        ),
        (StartPhase::RecordingReady, StartEvent::Recorded(Err(error))) => (
            StartPhase::CleaningUp(HostError::Audit(error)),
            StartAction::CleanUp,
        ),
        (StartPhase::WritingReady, StartEvent::Written(Ok(()))) => (
            StartPhase::CapturingBase,
            StartAction::CaptureBase,
        ),
        (StartPhase::WritingReady, StartEvent::Written(Err(error))) => (
            StartPhase::CleaningUp(error),
            StartAction::CleanUp,
        ),
        (StartPhase::CleaningUp(error), _) => fail_start(error),
        (StartPhase::CapturingBase, StartEvent::Captured(files)) => (
            StartPhase::Finished,
            StartAction::Finish(Ok(Started { audited, files })),
        ),
        _ => fail_start(HostError::ConnectionLost),
    }
}

// ---------------------------------------------------------------------------
// The controller's input
// ---------------------------------------------------------------------------

/// What the copying of input waits for.
#[derive(Debug, Clone, Copy, PartialEq, Eq, Structural)]
pub enum InputPhase {
    Reading,
    /// The input to be recorded.
    Recording { length: usize },
    /// The input to be written to the terminal.
    Writing { length: usize },
    /// The successful write to be recorded.
    RecordingWritten,
    /// The failed write to be recorded.
    RecordingFailed(IoFailure),
    Flushing,
    /// Nothing: the input has ended, and the terminal goes on without it.
    Ended,
    Finished,
}

/// What happened to the copying of input.
#[derive(Debug, Clone, Copy, PartialEq, Eq)]
pub enum InputEvent {
    /// So many bytes were read; none at the end of the input.
    Read(Result<usize, IoFailure>),
    Recorded(Result<(), AuditError>),
    Written(Result<(), IoFailure>),
    Flushed(Result<(), IoFailure>),
}

/// What the copying of input wants done.
#[derive(Debug, Clone, Copy, PartialEq, Eq, Structural)]
pub enum InputAction {
    Read,
    /// Record the bytes that were read.
    RecordInput,
    /// Write the bytes that were read.
    Write,
    RecordOutcome { written: bool, length: u64 },
    Flush,
    /// Close the terminal's input.
    Close,
    Finish(HostError),
}

/// The event is one that can happen in the phase.
pub open spec fn input_awaits(phase: InputPhase, event: InputEvent) -> bool {
    match phase {
        InputPhase::Reading => event is Read,
        InputPhase::Recording { .. }
        | InputPhase::RecordingWritten
        | InputPhase::RecordingFailed(_) => event is Recorded,
        InputPhase::Writing { .. } => event is Written,
        InputPhase::Flushing => event is Flushed,
        InputPhase::Ended | InputPhase::Finished => false,
    }
}

/// The copying has failed.
pub open spec fn input_failed(error: HostError) -> (InputPhase, InputAction) {
    (InputPhase::Finished, InputAction::Finish(error))
}

/// What follows an event. In an audited session the input is recorded before it
/// is written, and the outcome of the write after it.
pub open spec fn input_after(audited: bool, phase: InputPhase, event: InputEvent) -> (
    InputPhase,
    InputAction,
) {
    match phase {
        InputPhase::Reading => match event->Read_0 {
            Err(failure) => input_failed(HostError::Io(failure)),
            Ok(length) => if length == 0 {
                (InputPhase::Flushing, InputAction::Flush)
            } else if audited {
                (InputPhase::Recording { length }, InputAction::RecordInput)
            } else {
                (InputPhase::Writing { length }, InputAction::Write)
            },
        },
        InputPhase::Recording { length } => match event->Recorded_0 {
            Ok(_) => (InputPhase::Writing { length }, InputAction::Write),
            Err(error) => input_failed(HostError::Audit(error)),
        },
        InputPhase::Writing { length } => match event->Written_0 {
            Ok(_) => if audited {
                (
                    InputPhase::RecordingWritten,
                    InputAction::RecordOutcome { written: true, length: length as u64 },
                )
            } else {
                (InputPhase::Reading, InputAction::Read)
            },
            Err(failure) => if audited {
                (
                    InputPhase::RecordingFailed(failure),
                    InputAction::RecordOutcome { written: false, length: length as u64 },
                )
            } else {
                input_failed(HostError::Io(failure))
            },
        },
        InputPhase::RecordingWritten => match event->Recorded_0 {
            Ok(_) => (InputPhase::Reading, InputAction::Read),
            Err(error) => input_failed(HostError::Audit(error)),
        },
        InputPhase::RecordingFailed(failure) => input_failed(HostError::Io(failure)),
        InputPhase::Flushing => match event->Flushed_0 {
            Ok(_) => (InputPhase::Ended, InputAction::Close),
            Err(failure) => input_failed(HostError::Io(failure)),
        },
        InputPhase::Ended | InputPhase::Finished => input_failed(HostError::ConnectionLost),
    }
}

fn fail_input(error: HostError) -> (next: (InputPhase, InputAction))
    ensures
        next == input_failed(error),
{
    (InputPhase::Finished, InputAction::Finish(error))
}

/// One step of the copying of a controller's input to the terminal.
pub fn copy_controller_input(audited: bool, phase: InputPhase, event: InputEvent) -> (next: (
    InputPhase,
    InputAction,
))
    requires
        input_awaits(phase, event),
    ensures
        next == input_after(audited, phase, event),
{
    match (phase, event) {
        (InputPhase::Reading, InputEvent::Read(Err(failure))) => fail_input(
            HostError::Io(failure),
        ),
        (InputPhase::Reading, InputEvent::Read(Ok(length))) => {
            if length == 0 {
                (InputPhase::Flushing, InputAction::Flush)
            } else if audited {
                (InputPhase::Recording { length }, InputAction::RecordInput)
            } else {
                (InputPhase::Writing { length }, InputAction::Write)
            }
        },
        (InputPhase::Recording { length }, InputEvent::Recorded(Ok(()))) => (
            InputPhase::Writing { length },
            InputAction::Write,
        ),
        (InputPhase::Recording { .. }, InputEvent::Recorded(Err(error))) => fail_input(
            HostError::Audit(error),
        ),
        (InputPhase::Writing { length }, InputEvent::Written(written)) => {
            if audited {
                let action = InputAction::RecordOutcome {
                    written: written.is_ok(),
                    length: length as u64,
                };
                match written {
                    Ok(()) => (InputPhase::RecordingWritten, action),
                    Err(failure) => (InputPhase::RecordingFailed(failure), action),
                }
            } else {
                match written {
                    Ok(()) => (InputPhase::Reading, InputAction::Read),
                    Err(failure) => fail_input(HostError::Io(failure)),
                }
            }
        },
        (InputPhase::RecordingWritten, InputEvent::Recorded(Ok(()))) => (
            InputPhase::Reading,
            InputAction::Read,
        ),
        (InputPhase::RecordingWritten, InputEvent::Recorded(Err(error))) => fail_input(
            HostError::Audit(error),
        ),
        (InputPhase::RecordingFailed(failure), _) => fail_input(HostError::Io(failure)),
        (InputPhase::Flushing, InputEvent::Flushed(Ok(()))) => (
            InputPhase::Ended,
            InputAction::Close,
        ),
        (InputPhase::Flushing, InputEvent::Flushed(Err(failure))) => fail_input(
            HostError::Io(failure),
        ),
        _ => fail_input(HostError::ConnectionLost),
    }
}

// ---------------------------------------------------------------------------
// The terminal's output
// ---------------------------------------------------------------------------

/// The size of a terminal.
#[derive(Debug, Clone, Copy, PartialEq, Eq, Structural)]
pub struct TerminalSize {
    pub columns: u16,
    pub rows: u16,
}

/// What a terminal reports.
#[derive(Debug, Clone, Copy, PartialEq, Eq, Structural)]
pub enum PtyEventKind {
    /// So many bytes of output.
    Output(usize),
    /// The shell exited with a code.
    Exited(u32),
}

/// What the copying of output waits for.
#[derive(Debug, Clone, Copy, PartialEq, Eq, Structural)]
pub enum OutputPhase {
    /// A resize of the controller, or a report of the terminal.
    Watching,
    RecordingResize(TerminalSize),
    Resizing,
    /// The output to be recorded.
    RecordingOutput { length: usize },
    /// The output to be sent.
    Sending { length: usize },
    /// The successful send to be recorded.
    RecordingSent,
    /// The failed send to be recorded.
    RecordingUnsent(IoFailure),
    RecordingExit { code: u32 },
    /// The data stream to be closed.
    ClosingData { code: u32 },
    /// The exit code to be told.
    WritingExit { code: u32 },
    /// The controller to acknowledge the end.
    Completing { code: u32 },
    Finished,
}

/// What happened to the copying of output.
#[derive(Debug, Clone, Copy, PartialEq, Eq)]
pub enum OutputEvent {
    Resize(Result<TerminalSize, HostError>),
    Pty(Result<PtyEventKind, TerminalError>),
    Recorded(Result<(), AuditError>),
    Resized(Result<(), TerminalError>),
    /// The output was sent, the data stream closed or the exit code written.
    Sent(Result<(), IoFailure>),
    Completed(Result<(), HostError>),
}

/// What the copying of output wants done.
#[allow(inconsistent_fields)]
#[derive(Debug, Clone, Copy, PartialEq, Eq)]
pub enum OutputAction {
    Watch,
    RecordResize(TerminalSize),
    Resize(TerminalSize),
    RecordOutput,
    Send,
    RecordOutcome { sent: bool, length: u64 },
    RecordExit { code: u8 },
    CloseData,
    WriteExit { code: u32 },
    Complete,
    Finish(Result<u32, HostError>),
}

/// The event is one that can happen in the phase.
pub open spec fn output_awaits(phase: OutputPhase, event: OutputEvent) -> bool {
    match phase {
        OutputPhase::Watching => event is Resize || event is Pty,
        OutputPhase::RecordingResize(_)
        | OutputPhase::RecordingOutput { .. }
        | OutputPhase::RecordingSent
        | OutputPhase::RecordingUnsent(_)
        | OutputPhase::RecordingExit { .. } => event is Recorded,
        OutputPhase::Resizing => event is Resized,
        OutputPhase::Sending { .. }
        | OutputPhase::ClosingData { .. }
        | OutputPhase::WritingExit { .. } => event is Sent,
        OutputPhase::Completing { .. } => event is Completed,
        OutputPhase::Finished => false,
    }
}

/// The copying has failed.
pub open spec fn output_failed(error: HostError) -> (OutputPhase, OutputAction) {
    (OutputPhase::Finished, OutputAction::Finish(Err(error)))
}

/// What follows an event while the terminal is watched.
pub open spec fn output_reported(audited: bool, event: OutputEvent) -> (OutputPhase, OutputAction) {
    match event {
        OutputEvent::Resize(Ok(size)) => if audited {
            (OutputPhase::RecordingResize(size), OutputAction::RecordResize(size))
        } else {
            (OutputPhase::Resizing, OutputAction::Resize(size))
        },
        OutputEvent::Resize(Err(error)) => output_failed(error),
        OutputEvent::Pty(Ok(PtyEventKind::Output(length))) => if audited {
            (OutputPhase::RecordingOutput { length }, OutputAction::RecordOutput)
        } else {
            (OutputPhase::Sending { length }, OutputAction::Send)
        },
        OutputEvent::Pty(Ok(PtyEventKind::Exited(code))) => if audited {
            (
                OutputPhase::RecordingExit { code },
                OutputAction::RecordExit {
                    code: #[verifier::truncate]
                    (code as u8),
                },
            )
        } else {
            (OutputPhase::ClosingData { code }, OutputAction::CloseData)
        },
        OutputEvent::Pty(Err(error)) => output_failed(HostError::Terminal(error)),
        _ => output_failed(HostError::ConnectionLost),
    }
}

/// What follows an event. In an audited session a resize, an output and the exit
/// are recorded before they take effect, and the outcome of a send after it. The
/// exit is conveyed in order: the data stream is closed, the code is written and
/// the controller's acknowledgement is awaited.
pub open spec fn output_after(audited: bool, phase: OutputPhase, event: OutputEvent) -> (
    OutputPhase,
    OutputAction,
) {
    match phase {
        OutputPhase::Watching => output_reported(audited, event),
        OutputPhase::RecordingResize(size) => match event->Recorded_0 {
            Ok(_) => (OutputPhase::Resizing, OutputAction::Resize(size)),
            Err(error) => output_failed(HostError::Audit(error)),
        },
        OutputPhase::Resizing => match event->Resized_0 {
            Ok(_) => (OutputPhase::Watching, OutputAction::Watch),
            Err(error) => output_failed(HostError::Terminal(error)),
        },
        OutputPhase::RecordingOutput { length } => match event->Recorded_0 {
            Ok(_) => (OutputPhase::Sending { length }, OutputAction::Send),
            Err(error) => output_failed(HostError::Audit(error)),
        },
        OutputPhase::Sending { length } => match event->Sent_0 {
            Ok(_) => if audited {
                (
                    OutputPhase::RecordingSent,
                    OutputAction::RecordOutcome { sent: true, length: length as u64 },
                )
            } else {
                (OutputPhase::Watching, OutputAction::Watch)
            },
            Err(failure) => if audited {
                (
                    OutputPhase::RecordingUnsent(failure),
                    OutputAction::RecordOutcome { sent: false, length: length as u64 },
                )
            } else {
                output_failed(HostError::Io(failure))
            },
        },
        OutputPhase::RecordingSent => match event->Recorded_0 {
            Ok(_) => (OutputPhase::Watching, OutputAction::Watch),
            Err(error) => output_failed(HostError::Audit(error)),
        },
        OutputPhase::RecordingUnsent(failure) => output_failed(HostError::Io(failure)),
        OutputPhase::RecordingExit { code } => match event->Recorded_0 {
            Ok(_) => (OutputPhase::ClosingData { code }, OutputAction::CloseData),
            Err(error) => output_failed(HostError::Audit(error)),
        },
        OutputPhase::ClosingData { code } => match event->Sent_0 {
            Ok(_) => (OutputPhase::WritingExit { code }, OutputAction::WriteExit { code }),
            Err(failure) => output_failed(HostError::Io(failure)),
        },
        OutputPhase::WritingExit { code } => match event->Sent_0 {
            Ok(_) => (OutputPhase::Completing { code }, OutputAction::Complete),
            Err(failure) => output_failed(HostError::Io(failure)),
        },
        OutputPhase::Completing { code } => match event->Completed_0 {
            Ok(_) => (OutputPhase::Finished, OutputAction::Finish(Ok(code))),
            Err(error) => output_failed(error),
        },
        OutputPhase::Finished => output_failed(HostError::ConnectionLost),
    }
}

fn fail_output(error: HostError) -> (next: (OutputPhase, OutputAction))
    ensures
        next == output_failed(error),
{
    (OutputPhase::Finished, OutputAction::Finish(Err(error)))
}

fn report_output(audited: bool, event: OutputEvent) -> (next: (OutputPhase, OutputAction))
    requires
        output_awaits(OutputPhase::Watching, event),
    ensures
        next == output_reported(audited, event),
{
    match event {
        OutputEvent::Resize(Ok(size)) => {
            if audited {
                (OutputPhase::RecordingResize(size), OutputAction::RecordResize(size))
            } else {
                (OutputPhase::Resizing, OutputAction::Resize(size))
            }
        },
        OutputEvent::Resize(Err(error)) => fail_output(error),
        OutputEvent::Pty(Ok(PtyEventKind::Output(length))) => {
            if audited {
                (OutputPhase::RecordingOutput { length }, OutputAction::RecordOutput)
            } else {
                (OutputPhase::Sending { length }, OutputAction::Send)
            }
        },
        OutputEvent::Pty(Ok(PtyEventKind::Exited(code))) => {
            if audited {
                let recorded: u8 = #[verifier::truncate]
                (code as u8);
                (OutputPhase::RecordingExit { code }, OutputAction::RecordExit { code: recorded })
            } else {
                (OutputPhase::ClosingData { code }, OutputAction::CloseData)
            }
        },
        OutputEvent::Pty(Err(error)) => fail_output(HostError::Terminal(error)),
        _ => fail_output(HostError::ConnectionLost),
    }
}

/// One step of the copying of a terminal's output to the controller.
pub fn copy_terminal_output(audited: bool, phase: OutputPhase, event: OutputEvent) -> (next: (
    OutputPhase,
    OutputAction,
))
    requires
        output_awaits(phase, event),
    ensures
        next == output_after(audited, phase, event),
{
    match (phase, event) {
        (OutputPhase::Watching, _) => report_output(audited, event),
        (OutputPhase::RecordingResize(size), OutputEvent::Recorded(Ok(()))) => (
            OutputPhase::Resizing,
            OutputAction::Resize(size),
        ),
        (OutputPhase::RecordingOutput { length }, OutputEvent::Recorded(Ok(()))) => (
            OutputPhase::Sending { length },
            OutputAction::Send,
        ),
        (OutputPhase::RecordingSent, OutputEvent::Recorded(Ok(()))) => (
            OutputPhase::Watching,
            OutputAction::Watch,
        ),
        (OutputPhase::RecordingExit { code }, OutputEvent::Recorded(Ok(()))) => (
            OutputPhase::ClosingData { code },
            OutputAction::CloseData,
        ),
        (OutputPhase::RecordingUnsent(failure), _) => fail_output(HostError::Io(failure)),
        (_, OutputEvent::Recorded(Err(error))) => fail_output(HostError::Audit(error)),
        (OutputPhase::Resizing, OutputEvent::Resized(Ok(()))) => (
            OutputPhase::Watching,
            OutputAction::Watch,
        ),
        (OutputPhase::Resizing, OutputEvent::Resized(Err(error))) => fail_output(
            HostError::Terminal(error),
        ),
        (OutputPhase::Sending { length }, OutputEvent::Sent(sent)) => {
            if audited {
                let action = OutputAction::RecordOutcome {
                    sent: sent.is_ok(),
                    length: length as u64,
                };
                match sent {
                    Ok(()) => (OutputPhase::RecordingSent, action),
                    Err(failure) => (OutputPhase::RecordingUnsent(failure), action),
                }
            } else {
                match sent {
                    Ok(()) => (OutputPhase::Watching, OutputAction::Watch),
                    Err(failure) => fail_output(HostError::Io(failure)),
                }
            }
        },
        (OutputPhase::ClosingData { code }, OutputEvent::Sent(Ok(()))) => (
            OutputPhase::WritingExit { code },
            OutputAction::WriteExit { code },
        ),
        (OutputPhase::WritingExit { code }, OutputEvent::Sent(Ok(()))) => (
            OutputPhase::Completing { code },
            OutputAction::Complete,
        ),
        (_, OutputEvent::Sent(Err(failure))) => fail_output(HostError::Io(failure)),
        (OutputPhase::Completing { code }, OutputEvent::Completed(Ok(()))) => (
            OutputPhase::Finished,
            OutputAction::Finish(Ok(code)),
        ),
        (OutputPhase::Completing { .. }, OutputEvent::Completed(Err(error))) => fail_output(error),
        _ => fail_output(HostError::ConnectionLost),
    }
}

// ---------------------------------------------------------------------------
// The end of the terminal
// ---------------------------------------------------------------------------

/// The bytes of a resize message, its tag included.
pub const RESIZE_LEN: usize = 5;

/// What the wait for the controller's acknowledgement waits for.
#[derive(Debug, Clone, Copy, PartialEq, Eq, Structural)]
pub enum CompletionPhase {
    /// The first byte of a message, or the end of the stream.
    ReadingTag,
    /// The rest of a resize message.
    ReadingResize,
    /// The acknowledgement to be recorded.
    Recording,
    /// The control stream to be closed.
    ShuttingDown,
    Finished,
}

/// What happened to the wait for the acknowledgement.
#[derive(Debug, Clone, Copy, PartialEq, Eq)]
pub enum CompletionEvent {
    /// A first byte; none at the end of the stream.
    Tag(Result<Option<u8>, IoFailure>),
    /// The rest of a message, taken for a resize.
    Resize(Result<(), HostError>),
    Recorded(Result<(), AuditError>),
    ShutDown(Result<(), IoFailure>),
    Deadline,
}

/// What the wait for the acknowledgement wants done.
#[derive(Debug, Clone, Copy, PartialEq, Eq)]
pub enum CompletionAction {
    ReadTag,
    /// Read the rest of a resize with this first byte, and check it.
    ReadResize(u8),
    RecordComplete,
    ShutDown,
    Finish(Result<(), HostError>),
}

/// The event is one that can happen in the phase.
pub open spec fn completion_awaits(phase: CompletionPhase, event: CompletionEvent) -> bool {
    event is Deadline && !(phase is Finished) || match phase {
        CompletionPhase::ReadingTag => event is Tag,
        CompletionPhase::ReadingResize => event is Resize,
        CompletionPhase::Recording => event is Recorded,
        CompletionPhase::ShuttingDown => event is ShutDown,
        CompletionPhase::Finished => false,
    }
}

/// The wait has come to an end.
pub open spec fn completion_end(result: Result<(), HostError>) -> (
    CompletionPhase,
    CompletionAction,
) {
    (CompletionPhase::Finished, CompletionAction::Finish(result))
}

/// What follows an event: resizes that were still under way are read and not
/// applied, and the acknowledgement (`complete`) or the end of the stream ends the
/// wait.
pub open spec fn completion_after(
    audited: bool,
    complete: u8,
    phase: CompletionPhase,
    event: CompletionEvent,
) -> (CompletionPhase, CompletionAction) {
    match event {
        CompletionEvent::Deadline => completion_end(Err(HostError::Timeout)),
        CompletionEvent::Tag(Err(failure)) => completion_end(Err(HostError::Io(failure))),
        CompletionEvent::Tag(Ok(None)) => completion_end(Ok(())),
        CompletionEvent::Tag(Ok(Some(tag))) => if tag != complete {
            (CompletionPhase::ReadingResize, CompletionAction::ReadResize(tag))
        } else if audited {
            (CompletionPhase::Recording, CompletionAction::RecordComplete)
        } else {
            (CompletionPhase::ShuttingDown, CompletionAction::ShutDown)
        },
        CompletionEvent::Resize(Ok(_)) => (CompletionPhase::ReadingTag, CompletionAction::ReadTag),
        CompletionEvent::Resize(Err(error)) => completion_end(Err(error)),
        CompletionEvent::Recorded(Ok(_)) => (
            CompletionPhase::ShuttingDown,
            CompletionAction::ShutDown,
        ),
        CompletionEvent::Recorded(Err(error)) => completion_end(Err(HostError::Audit(error))),
        CompletionEvent::ShutDown(Ok(_)) => completion_end(Ok(())),
        CompletionEvent::ShutDown(Err(failure)) => completion_end(Err(HostError::Io(failure))),
    }
}

fn end_completion(result: Result<(), HostError>) -> (next: (CompletionPhase, CompletionAction))
    ensures
        next == completion_end(result),
{
    (CompletionPhase::Finished, CompletionAction::Finish(result))
}

/// One step of the wait for the controller to acknowledge the end of a terminal.
pub fn complete_terminal_exit(
    audited: bool,
    complete: u8,
    phase: CompletionPhase,
    event: CompletionEvent,
) -> (next: (CompletionPhase, CompletionAction))
    requires
        completion_awaits(phase, event),
    ensures
        next == completion_after(audited, complete, phase, event),
{
    match event {
        CompletionEvent::Deadline => end_completion(Err(HostError::Timeout)),
        CompletionEvent::Tag(Err(failure)) => end_completion(Err(HostError::Io(failure))),
        CompletionEvent::Tag(Ok(None)) => end_completion(Ok(())),
        CompletionEvent::Tag(Ok(Some(tag))) => {
            if tag != complete {
                (CompletionPhase::ReadingResize, CompletionAction::ReadResize(tag))
            } else if audited {
                (CompletionPhase::Recording, CompletionAction::RecordComplete)
            } else {
                (CompletionPhase::ShuttingDown, CompletionAction::ShutDown)
            }
        },
        CompletionEvent::Resize(Ok(())) => (
            CompletionPhase::ReadingTag,
            CompletionAction::ReadTag,
        ),
        CompletionEvent::Resize(Err(error)) => end_completion(Err(error)),
        CompletionEvent::Recorded(Ok(())) => (
            CompletionPhase::ShuttingDown,
            CompletionAction::ShutDown,
        ),
        CompletionEvent::Recorded(Err(error)) => end_completion(Err(HostError::Audit(error))),
        CompletionEvent::ShutDown(Ok(())) => end_completion(Ok(())),
        CompletionEvent::ShutDown(Err(failure)) => end_completion(Err(HostError::Io(failure))),
    }
}

// ---------------------------------------------------------------------------
// Laws
// ---------------------------------------------------------------------------

/// Reading on as [`terminal_hello_frame`] says never reads past the end of a
/// hello: what a beginning of a hello needs stays within what the whole needs.
pub proof fn law_a_hello_is_read_to_its_end(hello: Seq<u8>, read: int)
    requires
        0 <= read < hello.len(),
        hello.len() == hello_len(hello),
    ensures
        read < hello_len(hello.take(read)) <= hello.len(),
{
}

/// An audited session opens its terminal only once its audit was established and
/// the hello recorded; a terminal is told ready only once it was opened.
pub proof fn law_the_audit_precedes_the_terminal(
    terms: StartTerms,
    phase: StartPhase,
    event: StartEvent,
)
    requires
        start_awaits(phase, event),
    ensures
        ({
            let (next, action) = start_after(terms, phase, event);
            &&& action is Open && terms.audited() ==> phase is RecordingHello
            &&& action is RecordHello ==> phase is Establishing
            &&& action is WriteReady ==> phase is Opening || phase is RecordingReady
            &&& action is WriteReady && terms.audited() ==> phase is RecordingReady
        }),
{
}

/// A terminal that was opened is cleaned up when its start fails: a failure after
/// the opening ends the start only by way of the cleanup.
pub proof fn law_an_opened_terminal_is_cleaned_up(
    terms: StartTerms,
    phase: StartPhase,
    event: StartEvent,
)
    requires
        start_awaits(phase, event),
        phase is RecordingReady || phase is WritingReady || phase is CapturingBase,
    ensures
        ({
            let (next, action) = start_after(terms, phase, event);
            action is Finish ==> action->Finish_0 is Ok
        }),
{
}

/// An audited session writes no input that was not recorded, and sends no output
/// that was not recorded.
pub proof fn law_records_come_first(
    input: InputPhase,
    read: InputEvent,
    output: OutputPhase,
    report: OutputEvent,
)
    requires
        input_awaits(input, read),
        output_awaits(output, report),
    ensures
        input_after(true, input, read).1 is Write ==> input is Recording && read is Recorded
            && read->Recorded_0 is Ok,
        output_after(true, output, report).1 is Send ==> output is RecordingOutput && report
            is Recorded && report->Recorded_0 is Ok,
        output_after(true, output, report).1 is Resize ==> output is RecordingResize && report
            is Recorded && report->Recorded_0 is Ok,
        output_after(true, output, report).1 is CloseData ==> output is RecordingExit && report
            is Recorded && report->Recorded_0 is Ok,
{
}

/// The end of the controller's input closes the terminal's input and nothing else:
/// the copying waits for no further event.
pub proof fn law_the_end_of_input_is_no_failure(audited: bool)
    ensures
        input_after(audited, InputPhase::Reading, InputEvent::Read(Ok(0))).1 == InputAction::Flush,
        input_after(audited, InputPhase::Flushing, InputEvent::Flushed(Ok(()))) == (
            InputPhase::Ended,
            InputAction::Close,
        ),
        forall|event: InputEvent| !input_awaits(InputPhase::Ended, event),
{
}

/// A resize that comes after the terminal ended is skipped.
pub proof fn law_a_late_resize_is_skipped(audited: bool, complete: u8, tag: u8)
    requires
        tag != complete,
    ensures
        ({
            let (reading, action) = completion_after(
                audited,
                complete,
                CompletionPhase::ReadingTag,
                CompletionEvent::Tag(Ok(Some(tag))),
            );
            &&& action == CompletionAction::ReadResize(tag)
            &&& completion_after(audited, complete, reading, CompletionEvent::Resize(Ok(()))) == (
                CompletionPhase::ReadingTag,
                CompletionAction::ReadTag,
            )
        }),
{
}

/// Where the copying of input stands after some events, how many of them were reads of
/// bytes, and how often it asked for a write.
pub open spec fn input_run(audited: bool, phase: InputPhase, events: Seq<InputEvent>) -> (
    InputPhase,
    nat,
    nat,
)
    decreases events.len(),
{
    if events.len() == 0 {
        (phase, 0, 0)
    } else {
        let (next, action) = input_after(audited, phase, events[0]);
        let (end, reads, writes) = input_run(audited, next, events.skip(1));
        (
            end,
            if events[0] matches InputEvent::Read(Ok(length)) && length > 0 {
                reads + 1
            } else {
                reads
            },
            if action == InputAction::Write {
                writes + 1
            } else {
                writes
            },
        )
    }
}

/// Every event of a run is one that can happen.
pub open spec fn input_follows(audited: bool, phase: InputPhase, events: Seq<InputEvent>) -> bool
    decreases events.len(),
{
    events.len() > 0 ==> input_awaits(phase, events[0]) && input_follows(
        audited,
        input_after(audited, phase, events[0]).0,
        events.skip(1),
    )
}

/// Input that was read is written before anything else is read: over any run of the
/// copying there is one write for every read of bytes, but for the one that an audit is
/// still recording, or at which it failed.
pub proof fn law_everything_that_is_read_is_written(audited: bool, events: Seq<InputEvent>)
    requires
        input_follows(audited, InputPhase::Reading, events),
    ensures
        ({
            let (end, reads, writes) = input_run(audited, InputPhase::Reading, events);
            &&& end is Recording ==> audited && reads == writes + 1
            &&& !(end is Recording) && !(end is Finished) ==> reads == writes
            &&& writes <= reads <= writes + 1
            &&& !audited ==> reads == writes
        }),
{
    lemma_input_run(audited, InputPhase::Reading, events);
}

proof fn lemma_input_run(audited: bool, phase: InputPhase, events: Seq<InputEvent>)
    requires
        input_follows(audited, phase, events),
        phase is Recording ==> audited,
    ensures
        ({
            let (end, reads, writes) = input_run(audited, phase, events);
            let owed: int = if phase is Recording {
                1
            } else {
                0
            };
            &&& end is Recording ==> audited && reads + owed == writes + 1
            &&& !(end is Recording) && !(end is Finished) ==> reads + owed == writes
            &&& writes <= reads + owed <= writes + 1
            &&& !audited ==> reads == writes
            &&& phase is Finished ==> end is Finished && reads == 0 && writes == 0
        }),
    decreases events.len(),
{
    if events.len() > 0 {
        let next = input_after(audited, phase, events[0]).0;
        lemma_input_run(audited, next, events.skip(1));
    }
}

/// Bytes that the controller typed are written to the shell, and the next are read once
/// that succeeded: at once without an audit; with one, they are recorded before and the
/// outcome, with their number, after.
pub proof fn law_typed_input_reaches_the_shell(length: usize)
    requires
        length > 0,
    ensures
        input_after(false, InputPhase::Reading, InputEvent::Read(Ok(length))) == (
            InputPhase::Writing { length },
            InputAction::Write,
        ),
        input_after(false, InputPhase::Writing { length }, InputEvent::Written(Ok(()))) == (
            InputPhase::Reading,
            InputAction::Read,
        ),
        input_after(true, InputPhase::Reading, InputEvent::Read(Ok(length))) == (
            InputPhase::Recording { length },
            InputAction::RecordInput,
        ),
        input_after(true, InputPhase::Recording { length }, InputEvent::Recorded(Ok(()))) == (
            InputPhase::Writing { length },
            InputAction::Write,
        ),
        input_after(true, InputPhase::Writing { length }, InputEvent::Written(Ok(()))) == (
            InputPhase::RecordingWritten,
            InputAction::RecordOutcome { written: true, length: length as u64 },
        ),
        input_after(true, InputPhase::RecordingWritten, InputEvent::Recorded(Ok(()))) == (
            InputPhase::Reading,
            InputAction::Read,
        ),
{
}

/// A failure ends the copying of input and is passed on; that of a write is recorded
/// first, when there is an audit.
pub proof fn law_a_failure_ends_the_input(
    audited: bool,
    phase: InputPhase,
    event: InputEvent,
    failure: IoFailure,
    error: AuditError,
)
    requires
        input_awaits(phase, event),
    ensures
        event == InputEvent::Read(Err(failure)) || event == InputEvent::Flushed(Err(failure))
            ==> input_after(audited, phase, event) == (
            InputPhase::Finished,
            InputAction::Finish(HostError::Io(failure)),
        ),
        event == InputEvent::Recorded(Err(error)) && !(phase is RecordingFailed) ==> input_after(
            audited,
            phase,
            event,
        ) == (InputPhase::Finished, InputAction::Finish(HostError::Audit(error))),
        !audited && event == InputEvent::Written(Err(failure)) ==> input_after(
            audited,
            phase,
            event,
        ) == (InputPhase::Finished, InputAction::Finish(HostError::Io(failure))),
        audited && event == InputEvent::Written(Err(failure)) ==> input_after(audited, phase, event)
            == (
            InputPhase::RecordingFailed(failure),
            InputAction::RecordOutcome { written: false, length: phase->Writing_length as u64 },
        ),
        phase == InputPhase::RecordingFailed(failure) ==> input_after(audited, phase, event) == (
            InputPhase::Finished,
            InputAction::Finish(HostError::Io(failure)),
        ),
{
}

/// What the shell prints is sent to the controller, and the terminal is watched again
/// once that succeeded: at once without an audit; with one, it is recorded before and
/// the outcome, with its length, after.
pub proof fn law_output_reaches_the_controller(length: usize)
    ensures
        ({
            let printed = OutputEvent::Pty(Ok(PtyEventKind::Output(length)));
            &&& output_after(false, OutputPhase::Watching, printed) == (
                OutputPhase::Sending { length },
                OutputAction::Send,
            )
            &&& output_after(true, OutputPhase::Watching, printed) == (
                OutputPhase::RecordingOutput { length },
                OutputAction::RecordOutput,
            )
        }),
        output_after(false, OutputPhase::Sending { length }, OutputEvent::Sent(Ok(()))) == (
            OutputPhase::Watching,
            OutputAction::Watch,
        ),
        output_after(
            true,
            OutputPhase::RecordingOutput { length },
            OutputEvent::Recorded(Ok(())),
        ) == (OutputPhase::Sending { length }, OutputAction::Send),
        output_after(true, OutputPhase::Sending { length }, OutputEvent::Sent(Ok(()))) == (
            OutputPhase::RecordingSent,
            OutputAction::RecordOutcome { sent: true, length: length as u64 },
        ),
        output_after(true, OutputPhase::RecordingSent, OutputEvent::Recorded(Ok(()))) == (
            OutputPhase::Watching,
            OutputAction::Watch,
        ),
{
}

/// A resize of the controller is applied as it was asked for, and the terminal is
/// watched again.
pub proof fn law_a_resize_is_applied(size: TerminalSize)
    ensures
        output_after(false, OutputPhase::Watching, OutputEvent::Resize(Ok(size))) == (
            OutputPhase::Resizing,
            OutputAction::Resize(size),
        ),
        output_after(true, OutputPhase::Watching, OutputEvent::Resize(Ok(size))) == (
            OutputPhase::RecordingResize(size),
            OutputAction::RecordResize(size),
        ),
        output_after(
            true,
            OutputPhase::RecordingResize(size),
            OutputEvent::Recorded(Ok(())),
        ) == (OutputPhase::Resizing, OutputAction::Resize(size)),
        forall|audited: bool| #[trigger]
            output_after(audited, OutputPhase::Resizing, OutputEvent::Resized(Ok(()))) == (
                OutputPhase::Watching,
                OutputAction::Watch,
            ),
{
}

/// An exit is conveyed in order, with the shell's own code throughout: the data stream is
/// closed, the code is written, the acknowledgement is awaited, and the copying ends with
/// the code. An audit records the low byte of the code before all that.
pub proof fn law_the_exit_code_is_conveyed(audited: bool, code: u32)
    ensures
        ({
            let exited = OutputEvent::Pty(Ok(PtyEventKind::Exited(code)));
            &&& output_after(false, OutputPhase::Watching, exited) == (
                OutputPhase::ClosingData { code },
                OutputAction::CloseData,
            )
            &&& output_after(true, OutputPhase::Watching, exited) == (
                OutputPhase::RecordingExit { code },
                OutputAction::RecordExit { code: (code % 256) as u8 },
            )
        }),
        output_after(true, OutputPhase::RecordingExit { code }, OutputEvent::Recorded(Ok(()))) == (
            OutputPhase::ClosingData { code },
            OutputAction::CloseData,
        ),
        output_after(audited, OutputPhase::ClosingData { code }, OutputEvent::Sent(Ok(()))) == (
            OutputPhase::WritingExit { code },
            OutputAction::WriteExit { code },
        ),
        output_after(audited, OutputPhase::WritingExit { code }, OutputEvent::Sent(Ok(()))) == (
            OutputPhase::Completing { code },
            OutputAction::Complete,
        ),
        output_after(audited, OutputPhase::Completing { code }, OutputEvent::Completed(Ok(()))) == (
            OutputPhase::Finished,
            OutputAction::Finish(Ok(code)),
        ),
{
    assert(code as u8 == (code % 256) as u8) by (bit_vector);
}

/// A failure ends the copying of output and is passed on; that of a send is recorded
/// first, when there is an audit.
pub proof fn law_a_failure_ends_the_output(
    audited: bool,
    phase: OutputPhase,
    event: OutputEvent,
    failure: IoFailure,
    terminal: TerminalError,
    audit: AuditError,
    error: HostError,
)
    requires
        output_awaits(phase, event),
    ensures
        ({
            let (next, action) = output_after(audited, phase, event);
            &&& event == OutputEvent::Resize(Err(error)) || event == OutputEvent::Completed(
                Err(error),
            ) ==> next == OutputPhase::Finished && action == OutputAction::Finish(Err(error))
            &&& event == OutputEvent::Pty(Err(terminal)) || event == OutputEvent::Resized(
                Err(terminal),
            ) ==> next == OutputPhase::Finished && action == OutputAction::Finish(
                Err(HostError::Terminal(terminal)),
            )
            &&& event == OutputEvent::Recorded(Err(audit)) && !(phase is RecordingUnsent) ==> next
                == OutputPhase::Finished && action == OutputAction::Finish(
                Err(HostError::Audit(audit)),
            )
            &&& event == OutputEvent::Sent(Err(failure)) && !(audited && phase is Sending) ==> next
                == OutputPhase::Finished && action == OutputAction::Finish(
                Err(HostError::Io(failure)),
            )
            &&& event == OutputEvent::Sent(Err(failure)) && audited && phase is Sending ==> next
                == OutputPhase::RecordingUnsent(failure) && action == (
            OutputAction::RecordOutcome { sent: false, length: phase->Sending_length as u64 })
            &&& phase == OutputPhase::RecordingUnsent(failure) ==> next == OutputPhase::Finished
                && action == OutputAction::Finish(Err(HostError::Io(failure)))
        }),
{
}

/// The acknowledgement of the controller ends the wait with success, once it was
/// recorded, if there is an audit, and the control stream is closed; so does the end of
/// the stream, at once.
pub proof fn law_the_acknowledgement_ends_the_wait(audited: bool, complete: u8)
    ensures
        ({
            let acknowledged = CompletionEvent::Tag(Ok(Some(complete)));
            &&& completion_after(false, complete, CompletionPhase::ReadingTag, acknowledged) == (
                CompletionPhase::ShuttingDown,
                CompletionAction::ShutDown,
            )
            &&& completion_after(true, complete, CompletionPhase::ReadingTag, acknowledged) == (
                CompletionPhase::Recording,
                CompletionAction::RecordComplete,
            )
        }),
        completion_after(
            audited,
            complete,
            CompletionPhase::Recording,
            CompletionEvent::Recorded(Ok(())),
        ) == (CompletionPhase::ShuttingDown, CompletionAction::ShutDown),
        completion_after(
            audited,
            complete,
            CompletionPhase::ShuttingDown,
            CompletionEvent::ShutDown(Ok(())),
        ) == (CompletionPhase::Finished, CompletionAction::Finish(Ok(()))),
        completion_after(
            audited,
            complete,
            CompletionPhase::ReadingTag,
            CompletionEvent::Tag(Ok(None)),
        ) == (CompletionPhase::Finished, CompletionAction::Finish(Ok(()))),
{
}

/// A failure ends the wait for the acknowledgement and is passed on, and the deadline
/// ends it in every phase.
pub proof fn law_a_failure_ends_the_wait(
    audited: bool,
    complete: u8,
    phase: CompletionPhase,
    event: CompletionEvent,
    failure: IoFailure,
    audit: AuditError,
    error: HostError,
)
    requires
        completion_awaits(phase, event),
    ensures
        ({
            let (next, action) = completion_after(audited, complete, phase, event);
            let ended = next == CompletionPhase::Finished;
            &&& event is Deadline ==> ended && action == CompletionAction::Finish(
                Err(HostError::Timeout),
            )
            &&& event == CompletionEvent::Tag(Err(failure)) || event == CompletionEvent::ShutDown(
                Err(failure),
            ) ==> ended && action == CompletionAction::Finish(Err(HostError::Io(failure)))
            &&& event == CompletionEvent::Resize(Err(error)) ==> ended && action
                == CompletionAction::Finish(Err(error))
            &&& event == CompletionEvent::Recorded(Err(audit)) ==> ended && action
                == CompletionAction::Finish(Err(HostError::Audit(audit)))
        }),
{
}

/// A standard session opens its terminal as soon as the hello was read; once it is open
/// its readiness is told, the directory is captured, and the start ends well, with file
/// requests exactly if the directory could be captured.
pub proof fn law_a_standard_start_goes_through(
    terms: StartTerms,
    hello: Vec<u8>,
    files: bool,
)
    requires
        terms.access != RelayAccessMode::Enterprise,
    ensures
        start_after(terms, StartPhase::ReadingHello, StartEvent::Hello(Ok(hello))) == (
            StartPhase::Opening,
            StartAction::Open,
        ),
        start_after(terms, StartPhase::Opening, StartEvent::Opened(Ok(()))) == (
            StartPhase::WritingReady,
            StartAction::WriteReady,
        ),
        start_after(terms, StartPhase::WritingReady, StartEvent::Written(Ok(()))) == (
            StartPhase::CapturingBase,
            StartAction::CaptureBase,
        ),
        start_after(terms, StartPhase::CapturingBase, StartEvent::Captured(files)) == (
            StartPhase::Finished,
            StartAction::Finish(Ok(Started { audited: false, files })),
        ),
{
}

/// An enterprise session with a directory for its audit waits for the controller's audit
/// stream, drops those of other peers, and then establishes, records, opens, records and
/// tells in this order, under the digest of its own hello.
pub proof fn law_an_audited_start_goes_through(
    terms: StartTerms,
    hello: Vec<u8>,
    digest: [u8; 32],
    other: PeerId,
    files: bool,
)
    requires
        terms.access == RelayAccessMode::Enterprise,
        terms.audit_root,
        other != terms.controller,
    ensures
        ({
            let (next, action) = start_after(
                terms,
                StartPhase::ReadingHello,
                StartEvent::Hello(Ok(hello)),
            );
            &&& action == StartAction::AwaitAudit
            &&& next is AwaitingAudit
            &&& (exists|array: [u8; 32]| #[trigger] array@ == sha256(hello@))
                ==> next->AwaitingAudit_digest@ == sha256(hello@)
        }),
        start_after(
            terms,
            StartPhase::AwaitingAudit { digest },
            StartEvent::AuditStream(Some(other)),
        ) == (StartPhase::AwaitingAudit { digest }, StartAction::AwaitAudit),
        start_after(
            terms,
            StartPhase::AwaitingAudit { digest },
            StartEvent::AuditStream(Some(terms.controller)),
        ) == (StartPhase::Establishing { digest }, StartAction::Establish { digest }),
        start_after(terms, StartPhase::Establishing { digest }, StartEvent::Established(Ok(())))
            == (StartPhase::RecordingHello, StartAction::RecordHello { digest }),
        start_after(terms, StartPhase::RecordingHello, StartEvent::Recorded(Ok(()))) == (
            StartPhase::Opening,
            StartAction::Open,
        ),
        start_after(terms, StartPhase::Opening, StartEvent::Opened(Ok(()))) == (
            StartPhase::RecordingReady,
            StartAction::RecordReady,
        ),
        start_after(terms, StartPhase::RecordingReady, StartEvent::Recorded(Ok(()))) == (
            StartPhase::WritingReady,
            StartAction::WriteReady,
        ),
        start_after(terms, StartPhase::WritingReady, StartEvent::Written(Ok(()))) == (
            StartPhase::CapturingBase,
            StartAction::CaptureBase,
        ),
        start_after(terms, StartPhase::CapturingBase, StartEvent::Captured(files)) == (
            StartPhase::Finished,
            StartAction::Finish(Ok(Started { audited: true, files })),
        ),
{
}

/// A start that fails says why: the step's own failure is passed on, an audit that the
/// controller does not open in time means that it does not support one, and without a
/// directory an enterprise session is refused before anything is opened.
pub proof fn law_a_failed_start_says_why(
    terms: StartTerms,
    phase: StartPhase,
    event: StartEvent,
    error: HostError,
    audit: AuditError,
    terminal: TerminalError,
)
    requires
        start_awaits(phase, event),
    ensures
        ({
            let (next, action) = start_after(terms, phase, event);
            &&& event == StartEvent::Hello(Err(error)) || event == StartEvent::Established(
                Err(error),
            ) ==> action == StartAction::Finish(Err(error)) && next == StartPhase::Finished
            &&& (event matches StartEvent::Hello(Ok(_))) && terms.access
                == RelayAccessMode::Enterprise && !terms.audit_root ==> action
                == StartAction::Finish(Err(HostError::RelayAccessUnavailable)) && next
                == StartPhase::Finished
            &&& event is AuditTimeout ==> action == StartAction::Finish(
                Err(HostError::Audit(AuditError::PeerUnsupported)),
            ) && next == StartPhase::Finished
            &&& event == StartEvent::AuditStream(None) ==> action == StartAction::Finish(
                Err(HostError::ProtocolRegistrationEnded),
            ) && next == StartPhase::Finished
            &&& event == StartEvent::Opened(Err(terminal)) ==> action == StartAction::Finish(
                Err(HostError::Terminal(terminal)),
            ) && next == StartPhase::Finished
            &&& event == StartEvent::Recorded(Err(audit)) && phase == StartPhase::RecordingHello
                ==> action == StartAction::Finish(Err(HostError::Audit(audit))) && next
                == StartPhase::Finished
            &&& event == StartEvent::Recorded(Err(audit)) && phase == StartPhase::RecordingReady
                ==> action == StartAction::CleanUp && next == StartPhase::CleaningUp(
                HostError::Audit(audit),
            )
            &&& event == StartEvent::Written(Err(error)) ==> action == StartAction::CleanUp && next
                == StartPhase::CleaningUp(error)
            &&& phase == StartPhase::CleaningUp(error) ==> action == StartAction::Finish(Err(error))
                && next == StartPhase::Finished
        }),
{
}

/// A hello is its head, a name behind the last byte of the head, and a second name
/// behind its own length.
pub proof fn law_the_layout_of_a_hello(hello: Seq<u8>, first: int, second: int)
    requires
        hello.len() > HELLO_HEAD_LEN + first,
        first == hello[HELLO_HEAD_LEN - 1],
        second == hello[HELLO_HEAD_LEN + first],
    ensures
        hello_len(hello) == HELLO_HEAD_LEN + first + 1 + second,
        hello_len(hello.take(HELLO_HEAD_LEN as int)) == HELLO_HEAD_LEN + first + 1,
        hello_len(Seq::empty()) == HELLO_HEAD_LEN,
{
}

/// The end of the controller's input is passed on to the shell: what was written is
/// flushed, and then the shell's input is closed.
pub proof fn law_the_end_of_input_reaches_the_shell(audited: bool)
    ensures
        input_after(audited, InputPhase::Reading, InputEvent::Read(Ok(0))) == (
            InputPhase::Flushing,
            InputAction::Flush,
        ),
        input_after(audited, InputPhase::Flushing, InputEvent::Flushed(Ok(()))) == (
            InputPhase::Ended,
            InputAction::Close,
        ),
{
}

/// While the acknowledgement is awaited, the first byte of any other message is that of a
/// resize, which is read to its end before the next message is.
pub proof fn law_a_late_resize_is_read_to_its_end(audited: bool, complete: u8, tag: u8)
    requires
        tag != complete,
    ensures
        completion_after(
            audited,
            complete,
            CompletionPhase::ReadingTag,
            CompletionEvent::Tag(Ok(Some(tag))),
        ) == (CompletionPhase::ReadingResize, CompletionAction::ReadResize(tag)),
        completion_after(
            audited,
            complete,
            CompletionPhase::ReadingResize,
            CompletionEvent::Resize(Ok(())),
        ) == (CompletionPhase::ReadingTag, CompletionAction::ReadTag),
{
}

/// Starting a terminal, copying its input and its output, and waiting for the
/// acknowledgement have come to their end exactly when they say what they ended with.
pub proof fn law_every_step_of_a_terminal_ends_with_a_result(
    terms: StartTerms,
    start: StartPhase,
    started: StartEvent,
    audited: bool,
    input: InputPhase,
    read: InputEvent,
    output: OutputPhase,
    report: OutputEvent,
    complete: u8,
    completion: CompletionPhase,
    answer: CompletionEvent,
)
    requires
        start_awaits(start, started),
        input_awaits(input, read),
        output_awaits(output, report),
        completion_awaits(completion, answer),
    ensures
        start_after(terms, start, started).0 is Finished <==> start_after(
            terms,
            start,
            started,
        ).1 is Finish,
        input_after(audited, input, read).0 is Finished <==> input_after(
            audited,
            input,
            read,
        ).1 is Finish,
        output_after(audited, output, report).0 is Finished <==> output_after(
            audited,
            output,
            report,
        ).1 is Finish,
        completion_after(audited, complete, completion, answer).0 is Finished
            <==> completion_after(audited, complete, completion, answer).1 is Finish,
{
}

} // verus!
