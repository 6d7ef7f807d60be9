use yon::failure::{AuditError, IoFailure, ProtocolError, TerminalError};
use yon::host::{HostError, RelayAccessMode};
use yon::host_files::{
    classify_file_open_io, file_substream_coordinator, serve_one_file_substream, FileAction,
    FileEvent, FileHeader, FileMessage, FileOpenError, FileOpenFrame, FileOpenRead, FileSlots,
    FileSubstreamRole, OpenAction, OpenEvent, ServeAction, FILE_SUBSTREAM_QUEUE,
};
use yon::host_terminal::{
    complete_terminal_exit, copy_controller_input, copy_terminal_output, terminal_hello_digest,
    terminal_hello_frame, CompletionAction, CompletionEvent, CompletionPhase, HelloFrame,
    InputAction, InputEvent, InputPhase, OutputAction, OutputEvent, OutputPhase, PtyEventKind,
    StartAction, StartEvent, StartTerms, Started, TerminalSize, TerminalStart, RESIZE_LEN,
};
use yon::network::PeerId;

const MAX_HELLO_LEN: usize = 135;
const COMPLETE: u8 = 0x04;
const HEADER_LEN: usize = 5;

/// A hello of 80 columns and 24 rows.
fn hello(term: &[u8], color: &[u8]) -> Vec<u8> {
    let mut bytes = vec![0x01, 0, 80, 0, 24, term.len() as u8];
    bytes.extend_from_slice(term);
    bytes.push(color.len() as u8);
    bytes.extend_from_slice(color);
    bytes
}

/// Reads a hello from a source that hands out at most `chunk` bytes at a time.
fn read_terminal_hello(mut source: &[u8], chunk: usize) -> Result<Vec<u8>, HostError> {
    let mut bytes = Vec::new();
    loop {
        match terminal_hello_frame(&bytes, MAX_HELLO_LEN) {
            HelloFrame::Complete => return Ok(bytes),
            HelloFrame::Invalid(error) => return Err(HostError::Protocol(error)),
            HelloFrame::Needs(needed) => {
                if source.len() < needed {
                    return Err(HostError::Io(IoFailure::UnexpectedEof));
                }
                let mut left = needed;
                while left > 0 {
                    let taken = left.min(chunk);
                    bytes.extend_from_slice(&source[..taken]);
                    source = &source[taken..];
                    left -= taken;
                }
            }
        }
    }
}

#[test]
fn terminal_hello_reader_enforces_both_length_bounds() {
    let encoded = hello(b"xterm", b"truecolor");
    assert_eq!(read_terminal_hello(&encoded, 64).unwrap(), encoded);

    let mut oversized_term = [0_u8; 6];
    oversized_term[5] = (MAX_HELLO_LEN - 6) as u8;
    assert!(matches!(
        read_terminal_hello(&oversized_term, 64),
        Err(HostError::Protocol(ProtocolError::InvalidLength { .. }))
    ));

    let mut oversized_color = [0_u8; 71];
    oversized_color[0] = 0x01;
    oversized_color[1..3].copy_from_slice(&80_u16.to_be_bytes());
    oversized_color[3..5].copy_from_slice(&24_u16.to_be_bytes());
    oversized_color[5] = 64;
    oversized_color[70] = 65;
    assert!(matches!(
        read_terminal_hello(&oversized_color, 64),
        Err(HostError::Protocol(ProtocolError::InvalidLength {
            expected: MAX_HELLO_LEN,
            actual: 136,
        }))
    ));

    assert!(matches!(
        read_terminal_hello(&[0x01, 0], 64),
        Err(HostError::Io(_))
    ));
}

#[test]
fn terminal_hello_reader_accepts_a_fragmented_hello() {
    let encoded = hello(b"xterm", b"truecolor");
    assert_eq!(read_terminal_hello(&encoded, 1).unwrap(), encoded);
}

#[test]
fn a_hello_ends_where_its_lengths_say() {
    let mut encoded = hello(b"xterm", b"truecolor");
    let len = encoded.len();
    assert_eq!(terminal_hello_frame(&[], MAX_HELLO_LEN), HelloFrame::Needs(6));
    assert_eq!(
        terminal_hello_frame(&encoded[..6], MAX_HELLO_LEN),
        HelloFrame::Needs(6)
    );
    assert_eq!(
        terminal_hello_frame(&encoded[..12], MAX_HELLO_LEN),
        HelloFrame::Needs(9)
    );
    assert_eq!(
        terminal_hello_frame(&encoded[..len - 1], MAX_HELLO_LEN),
        HelloFrame::Needs(1)
    );
    encoded.push(0);
    assert_eq!(
        terminal_hello_frame(&encoded, MAX_HELLO_LEN),
        HelloFrame::Complete
    );
}

#[test]
fn the_digest_of_a_hello_is_its_sha_256() {
    let digest = terminal_hello_digest(b"abc");
    let shown: String = digest.iter().map(|byte| format!("{byte:02x}")).collect();
    assert_eq!(
        shown,
        "ba7816bf8f01cfea414140de5dae2223b00361a396177a9cb410ff61f20015ad"
    );
}

fn terms(access: RelayAccessMode) -> StartTerms {
    StartTerms {
        access,
        audit_root: true,
        controller: PeerId(4),
    }
}

/// Starts a standard terminal and counts its clean-ups.
fn start_terminal(
    opened: Result<(), TerminalError>,
    written: Result<(), HostError>,
) -> (Result<Started, HostError>, usize) {
    let (mut start, mut action) = TerminalStart::new(terms(RelayAccessMode::Standard));
    let mut shutdowns = 0;
    loop {
        let event = match action {
            StartAction::ReadHello => StartEvent::Hello(Ok(hello(b"xterm", b"truecolor"))),
            StartAction::Open => StartEvent::Opened(opened),
            StartAction::WriteReady => StartEvent::Written(written),
            StartAction::CleanUp => {
                shutdowns += 1;
                StartEvent::CleanedUp
            }
            StartAction::CaptureBase => StartEvent::Captured(true),
            StartAction::Finish(result) => return (result, shutdowns),
            other => panic!("unexpected action {other:?}"),
        };
        action = start.advance(event);
    }
}

#[test]
fn terminal_start_preserves_root_error_and_cleans_open_session() {
    let (result, shutdowns) = start_terminal(Ok(()), Err(HostError::Io(IoFailure::Other)));
    assert!(matches!(result, Err(HostError::Io(_))));
    assert_eq!(shutdowns, 1);

    let (result, shutdowns) = start_terminal(Err(TerminalError::Open), Ok(()));
    assert!(matches!(
        result,
        Err(HostError::Terminal(TerminalError::Open))
    ));
    assert_eq!(shutdowns, 0);

    let (result, shutdowns) = start_terminal(Ok(()), Ok(()));
    assert_eq!(
        result,
        Ok(Started {
            audited: false,
            files: true,
        })
    );
    assert_eq!(shutdowns, 0);
}

#[test]
fn start_terminal_io_times_out_when_the_hello_never_arrives() {
    let (mut start, action) = TerminalStart::new(terms(RelayAccessMode::Standard));
    assert_eq!(action, StartAction::ReadHello);
    assert_eq!(
        start.advance(StartEvent::Hello(Err(HostError::Timeout))),
        StartAction::Finish(Err(HostError::Timeout))
    );
}

#[test]
fn an_audited_terminal_is_recorded_before_it_opens() {
    let (mut start, _) = TerminalStart::new(terms(RelayAccessMode::Enterprise));
    let encoded = hello(b"xterm", b"truecolor");
    let digest = terminal_hello_digest(&encoded);
    assert_eq!(
        start.advance(StartEvent::Hello(Ok(encoded))),
        StartAction::AwaitAudit
    );
    assert_eq!(
        start.advance(StartEvent::AuditStream(Some(PeerId(5)))),
        StartAction::AwaitAudit
    );
    assert_eq!(
        start.advance(StartEvent::AuditStream(Some(PeerId(4)))),
        StartAction::Establish { digest }
    );
    assert_eq!(
        start.advance(StartEvent::Established(Ok(()))),
        StartAction::RecordHello { digest }
    );
    assert_eq!(
        start.advance(StartEvent::Recorded(Ok(()))),
        StartAction::Open
    );
    assert_eq!(
        start.advance(StartEvent::Opened(Ok(()))),
        StartAction::RecordReady
    );
    assert_eq!(
        start.advance(StartEvent::Recorded(Err(AuditError::FailedClosed))),
        StartAction::CleanUp
    );
    assert_eq!(
        start.advance(StartEvent::CleanedUp),
        StartAction::Finish(Err(HostError::Audit(AuditError::FailedClosed)))
    );

    let (mut unsupported, _) = TerminalStart::new(terms(RelayAccessMode::Enterprise));
    unsupported.advance(StartEvent::Hello(Ok(Vec::new())));
    assert_eq!(
        unsupported.advance(StartEvent::AuditTimeout),
        StartAction::Finish(Err(HostError::Audit(AuditError::PeerUnsupported)))
    );

    let (mut rootless, _) = TerminalStart::new(StartTerms {
        audit_root: false,
        ..terms(RelayAccessMode::Enterprise)
    });
    assert_eq!(
        rootless.advance(StartEvent::Hello(Ok(Vec::new()))),
        StartAction::Finish(Err(HostError::RelayAccessUnavailable))
    );
}

#[test]
fn controller_input_read_error_ends_the_pump_with_an_io_error() {
    let (phase, action) = copy_controller_input(
        false,
        InputPhase::Reading,
        InputEvent::Read(Err(IoFailure::Other)),
    );
    assert_eq!(phase, InputPhase::Finished);
    assert_eq!(
        action,
        InputAction::Finish(HostError::Io(IoFailure::Other))
    );
}

#[test]
fn controller_input_flush_and_close_are_invoked_at_stream_end() {
    let (phase, action) =
        copy_controller_input(false, InputPhase::Reading, InputEvent::Read(Ok(0)));
    assert_eq!(action, InputAction::Flush);
    let (phase, action) = copy_controller_input(false, phase, InputEvent::Flushed(Ok(())));
    assert_eq!(action, InputAction::Close);
    assert_eq!(phase, InputPhase::Ended);
}

#[test]
fn audit_failure_stops_further_input_from_reaching_the_pty() {
    let mut written = 0;
    let mut phase = InputPhase::Reading;
    let mut failed = false;
    for length in [17, 18] {
        let (next, action) = copy_controller_input(true, phase, InputEvent::Read(Ok(length)));
        assert_eq!(action, InputAction::RecordInput);
        let record = if failed {
            Err(AuditError::FailedClosed)
        } else {
            Ok(())
        };
        let (next, action) = copy_controller_input(true, next, InputEvent::Recorded(record));
        if failed {
            assert_eq!(
                action,
                InputAction::Finish(HostError::Audit(AuditError::FailedClosed))
            );
            break;
        }
        assert_eq!(action, InputAction::Write);
        written += length;
        let (next, action) = copy_controller_input(true, next, InputEvent::Written(Ok(())));
        assert_eq!(
            action,
            InputAction::RecordOutcome {
                written: true,
                length: length as u64,
            }
        );
        let (next, action) = copy_controller_input(true, next, InputEvent::Recorded(Ok(())));
        assert_eq!(action, InputAction::Read);
        phase = next;
        failed = true;
    }
    assert_eq!(written, 17);
}

#[test]
fn audited_terminal_effect_failures_record_failed_outcomes() {
    let (phase, action) = copy_controller_input(
        true,
        InputPhase::Writing { length: 5 },
        InputEvent::Written(Err(IoFailure::Other)),
    );
    assert_eq!(
        action,
        InputAction::RecordOutcome {
            written: false,
            length: 5,
        }
    );
    let (_, action) = copy_controller_input(true, phase, InputEvent::Recorded(Ok(())));
    assert_eq!(
        action,
        InputAction::Finish(HostError::Io(IoFailure::Other))
    );

    let (phase, action) = copy_terminal_output(
        true,
        OutputPhase::Sending { length: 6 },
        OutputEvent::Sent(Err(IoFailure::Other)),
    );
    assert_eq!(
        action,
        OutputAction::RecordOutcome {
            sent: false,
            length: 6,
        }
    );
    let (_, action) = copy_terminal_output(true, phase, OutputEvent::Recorded(Ok(())));
    assert_eq!(
        action,
        OutputAction::Finish(Err(HostError::Io(IoFailure::Other)))
    );
}

#[test]
fn terminal_output_applies_resize_before_reporting_exit() {
    let resized = TerminalSize {
        columns: 117,
        rows: 41,
    };
    let (phase, action) = copy_terminal_output(
        false,
        OutputPhase::Watching,
        OutputEvent::Resize(Ok(resized)),
    );
    assert_eq!(action, OutputAction::Resize(resized));
    let (phase, action) = copy_terminal_output(false, phase, OutputEvent::Resized(Ok(())));
    assert_eq!(action, OutputAction::Watch);
    let (phase, action) = copy_terminal_output(
        false,
        phase,
        OutputEvent::Pty(Ok(PtyEventKind::Exited(41))),
    );
    assert_eq!(action, OutputAction::CloseData);
    let (phase, action) = copy_terminal_output(false, phase, OutputEvent::Sent(Ok(())));
    assert_eq!(action, OutputAction::WriteExit { code: 41 });
    let (phase, action) = copy_terminal_output(false, phase, OutputEvent::Sent(Ok(())));
    assert_eq!(action, OutputAction::Complete);
    let (_, action) = copy_terminal_output(false, phase, OutputEvent::Completed(Ok(())));
    assert_eq!(action, OutputAction::Finish(Ok(41)));
}

#[test]
fn terminal_output_rejects_an_invalid_resize_tag() {
    let (_, action) = copy_terminal_output(
        false,
        OutputPhase::Watching,
        OutputEvent::Resize(Err(HostError::Protocol(ProtocolError::Other))),
    );
    assert_eq!(
        action,
        OutputAction::Finish(Err(HostError::Protocol(ProtocolError::Other)))
    );
}

#[test]
fn terminal_output_propagates_a_failed_data_flush() {
    let (phase, action) = copy_terminal_output(
        false,
        OutputPhase::Watching,
        OutputEvent::Pty(Ok(PtyEventKind::Output(4))),
    );
    assert_eq!(action, OutputAction::Send);
    let (_, action) =
        copy_terminal_output(false, phase, OutputEvent::Sent(Err(IoFailure::Other)));
    assert_eq!(
        action,
        OutputAction::Finish(Err(HostError::Io(IoFailure::Other)))
    );
}

#[test]
fn terminal_output_propagates_a_failed_control_flush_when_reporting_exit() {
    let (_, action) = copy_terminal_output(
        false,
        OutputPhase::WritingExit { code: 13 },
        OutputEvent::Sent(Err(IoFailure::Other)),
    );
    assert_eq!(
        action,
        OutputAction::Finish(Err(HostError::Io(IoFailure::Other)))
    );
}

#[test]
fn terminal_output_propagates_a_control_read_error() {
    let (_, action) = copy_terminal_output(
        false,
        OutputPhase::Watching,
        OutputEvent::Resize(Err(HostError::Io(IoFailure::Other))),
    );
    assert_eq!(
        action,
        OutputAction::Finish(Err(HostError::Io(IoFailure::Other)))
    );
}

#[test]
fn terminal_output_propagates_a_session_error() {
    let (_, action) = copy_terminal_output(
        false,
        OutputPhase::Watching,
        OutputEvent::Pty(Err(TerminalError::TaskStopped)),
    );
    assert_eq!(
        action,
        OutputAction::Finish(Err(HostError::Terminal(TerminalError::TaskStopped)))
    );
}

#[test]
fn an_audited_exit_records_the_low_byte_of_its_code() {
    let (_, action) = copy_terminal_output(
        true,
        OutputPhase::Watching,
        OutputEvent::Pty(Ok(PtyEventKind::Exited(0x1_02))),
    );
    assert_eq!(action, OutputAction::RecordExit { code: 2 });
}

/// Waits for the acknowledgement on a control stream with these bytes, and tells
/// whether the stream was closed.
fn complete_terminal_exit_on(control: &[u8]) -> (Result<(), HostError>, bool) {
    let mut control = control;
    let mut phase = CompletionPhase::ReadingTag;
    let mut action = CompletionAction::ReadTag;
    let mut closed = false;
    loop {
        let event = match action {
            CompletionAction::ReadTag => {
                let tag = control.first().copied();
                control = control.get(1..).unwrap_or_default();
                CompletionEvent::Tag(Ok(tag))
            }
            CompletionAction::ReadResize(tag) => {
                if control.len() < RESIZE_LEN - 1 {
                    CompletionEvent::Resize(Err(HostError::Io(IoFailure::UnexpectedEof)))
                } else {
                    control = &control[RESIZE_LEN - 1..];
                    CompletionEvent::Resize(if tag == 0x02 {
                        Ok(())
                    } else {
                        Err(HostError::Protocol(ProtocolError::Other))
                    })
                }
            }
            CompletionAction::ShutDown => {
                closed = true;
                CompletionEvent::ShutDown(Ok(()))
            }
            CompletionAction::RecordComplete => CompletionEvent::Recorded(Ok(())),
            CompletionAction::Finish(result) => return (result, closed),
        };
        (phase, action) = complete_terminal_exit(false, COMPLETE, phase, event);
    }
}

/// What the exit of a shell came to.
struct CopiedExit {
    sent: usize,
    remote_exit: Option<u32>,
    told_before_the_end: bool,
    control_closed: bool,
    result: Result<u32, HostError>,
}

/// Copies the output of a shell that only exits, to a controller that then sends
/// these bytes and closes its side.
fn copy_terminal_exit(code: u32, control: &[u8]) -> CopiedExit {
    let mut phase = OutputPhase::Watching;
    let mut action = OutputAction::Watch;
    let mut sent = 0;
    let mut data_closed = false;
    let mut remote_exit = None;
    let mut told_before_the_end = false;
    let mut control_closed = false;
    loop {
        let event = match action {
            OutputAction::Watch => OutputEvent::Pty(Ok(PtyEventKind::Exited(code))),
            OutputAction::Send => {
                sent += 1;
                OutputEvent::Sent(Ok(()))
            }
            OutputAction::CloseData => {
                data_closed = true;
                OutputEvent::Sent(Ok(()))
            }
            OutputAction::WriteExit { code } => {
                assert!(data_closed, "the data stream ends before the exit is told");
                remote_exit = Some(code);
                OutputEvent::Sent(Ok(()))
            }
            OutputAction::Complete => {
                told_before_the_end = remote_exit.is_some();
                let (result, closed) = complete_terminal_exit_on(control);
                control_closed = closed;
                OutputEvent::Completed(result)
            }
            OutputAction::Finish(result) => {
                return CopiedExit {
                    sent,
                    remote_exit,
                    told_before_the_end,
                    control_closed,
                    result,
                }
            }
            other => panic!("unexpected without an audit: {other:?}"),
        };
        (phase, action) = copy_terminal_output(false, phase, event);
    }
}

#[test]
fn terminal_completion_drains_a_queued_resize_before_acknowledgement() {
    let (result, closed) = complete_terminal_exit_on(&[0x02, 0, 132, 0, 43, COMPLETE]);
    result.unwrap();
    assert!(closed);
}

#[test]
fn terminal_completion_drains_several_resizes_before_shutting_down_the_control_half() {
    let (result, closed) =
        complete_terminal_exit_on(&[0x02, 0, 100, 0, 30, 0x02, 0, 132, 0, 43, COMPLETE]);
    result.unwrap();
    assert!(
        closed,
        "the control half must be shut down after the completion"
    );
}

#[test]
fn terminal_completion_rejects_invalid_and_truncated_queued_resizes() {
    assert!(matches!(
        complete_terminal_exit_on(&[0xff, 0, 0, 0, 0]).0,
        Err(HostError::Protocol(_))
    ));
    assert!(matches!(
        complete_terminal_exit_on(&[0x02, 0, 0]).0,
        Err(HostError::Io(_))
    ));
}

#[test]
fn terminal_completion_has_a_bounded_acknowledgement_wait() {
    let (_, action) = complete_terminal_exit(
        false,
        COMPLETE,
        CompletionPhase::ReadingTag,
        CompletionEvent::Deadline,
    );
    assert_eq!(action, CompletionAction::Finish(Err(HostError::Timeout)));
}

#[test]
fn terminal_completion_propagates_a_control_read_error() {
    let (_, action) = complete_terminal_exit(
        false,
        COMPLETE,
        CompletionPhase::ReadingTag,
        CompletionEvent::Tag(Err(IoFailure::Other)),
    );
    assert_eq!(
        action,
        CompletionAction::Finish(Err(HostError::Io(IoFailure::Other)))
    );
}

#[test]
fn terminal_output_waits_for_controller_to_observe_completion() {
    const EXIT_CODE: u32 = 43;
    let exit = copy_terminal_exit(EXIT_CODE, &[]);
    assert_eq!(exit.sent, 0);
    assert_eq!(exit.remote_exit, Some(EXIT_CODE));
    assert!(exit.told_before_the_end);
    assert!(!exit.control_closed);
    assert_eq!(exit.result.unwrap(), EXIT_CODE);
}

#[test]
fn terminal_output_completion_ack_closes_the_host_control_half() {
    const EXIT_CODE: u32 = 47;
    let exit = copy_terminal_exit(EXIT_CODE, &[COMPLETE]);
    assert_eq!(exit.sent, 0);
    assert_eq!(exit.remote_exit, Some(EXIT_CODE));
    assert!(exit.control_closed);
    assert_eq!(exit.result.unwrap(), EXIT_CODE);
}

#[test]
fn an_audited_acknowledgement_is_recorded_first() {
    let (phase, action) = complete_terminal_exit(
        true,
        COMPLETE,
        CompletionPhase::ReadingTag,
        CompletionEvent::Tag(Ok(Some(COMPLETE))),
    );
    assert_eq!(action, CompletionAction::RecordComplete);
    let (_, action) =
        complete_terminal_exit(true, COMPLETE, phase, CompletionEvent::Recorded(Ok(())));
    assert_eq!(action, CompletionAction::ShutDown);
}

fn upload() -> FileMessage {
    FileMessage::UploadOpen {
        destination: "dir/f".to_owned(),
        file_name: "n.bin".to_owned(),
        declared_size: 7,
    }
}

/// Reads an opening frame of which `available` bytes arrive, at most `chunk` at a
/// time, before the stream ends.
fn read_file_open_frame(
    available: usize,
    chunk: usize,
    header: Option<FileHeader>,
    message: Option<FileMessage>,
) -> Result<FileOpenFrame, FileOpenError> {
    let (mut read, mut action) = FileOpenRead::new(HEADER_LEN);
    let mut left = available;
    let mut message = Some(message);
    loop {
        let event = match action {
            OpenAction::Read(wanted) => {
                let taken = wanted.min(chunk).min(left);
                left -= taken;
                OpenEvent::Read(Ok(taken))
            }
            OpenAction::DecodeHeader => OpenEvent::Header(header),
            OpenAction::DecodeFrame => OpenEvent::Message(message.take().unwrap()),
            OpenAction::Finish(result) => return result,
        };
        action = read.advance(event);
    }
}

fn control_header(payload_len: usize) -> Option<FileHeader> {
    Some(FileHeader {
        data: false,
        payload_len,
        valid: true,
    })
}

#[test]
fn file_open_frame_read_distinguishes_probe_open_and_protocol() {
    assert_eq!(
        read_file_open_frame(0, 64, None, None).unwrap(),
        FileOpenFrame::Probe
    );
    assert_eq!(
        read_file_open_frame(27, 64, control_header(22), Some(upload())).unwrap(),
        FileOpenFrame::Upload {
            destination: "dir/f".to_owned(),
            file_name: "n.bin".to_owned(),
            declared_size: 7,
        }
    );
    assert_eq!(
        read_file_open_frame(
            11,
            64,
            control_header(6),
            Some(FileMessage::DownloadOpen {
                source: "in/f".to_owned()
            })
        )
        .unwrap(),
        FileOpenFrame::Download {
            source: "in/f".to_owned()
        }
    );
    // An unknown tag.
    assert_eq!(
        read_file_open_frame(5, 64, None, None).unwrap_err(),
        FileOpenError::Protocol
    );
    // A frame that cannot open a transfer.
    assert_eq!(
        read_file_open_frame(5, 64, control_header(0), Some(FileMessage::Other)).unwrap_err(),
        FileOpenError::Protocol
    );
    // File contents as the first frame.
    let data = Some(FileHeader {
        data: true,
        payload_len: 3,
        valid: true,
    });
    assert_eq!(
        read_file_open_frame(8, 64, data, None).unwrap_err(),
        FileOpenError::Protocol
    );
    // An end of the stream inside the header, and inside the payload.
    assert_eq!(
        read_file_open_frame(3, 64, None, None).unwrap_err(),
        FileOpenError::Protocol
    );
    assert_eq!(
        read_file_open_frame(15, 64, control_header(100), None).unwrap_err(),
        FileOpenError::Protocol
    );
    let (mut silent, _) = FileOpenRead::new(HEADER_LEN);
    assert_eq!(
        silent.advance(OpenEvent::Deadline),
        OpenAction::Finish(Err(FileOpenError::Timeout))
    );
}

#[test]
fn file_open_frame_read_rejects_invalid_lengths_and_bad_bodies() {
    for payload_len in [5, u32::MAX as usize] {
        let header = Some(FileHeader {
            data: false,
            payload_len,
            valid: false,
        });
        assert_eq!(
            read_file_open_frame(5, 64, header, None).unwrap_err(),
            FileOpenError::Protocol
        );
    }
    assert_eq!(
        read_file_open_frame(5, 64, control_header(13), None).unwrap_err(),
        FileOpenError::Protocol
    );
    assert_eq!(
        read_file_open_frame(18, 64, control_header(13), None).unwrap_err(),
        FileOpenError::Protocol
    );
}

#[test]
fn file_open_frame_read_tolerates_byte_fragmented_writes() {
    assert_eq!(
        read_file_open_frame(27, 1, control_header(22), Some(upload())).unwrap(),
        FileOpenFrame::Upload {
            destination: "dir/f".to_owned(),
            file_name: "n.bin".to_owned(),
            declared_size: 7,
        }
    );
}

#[test]
fn file_open_io_failures_are_classified_by_eof_kind() {
    // The end of the stream inside a frame is a protocol violation; every other
    // failure of the substream stays an I/O failure.
    assert_eq!(
        classify_file_open_io(std::io::Error::new(
            std::io::ErrorKind::UnexpectedEof,
            "truncated frame",
        )),
        FileOpenError::Protocol
    );
    assert_eq!(
        classify_file_open_io(std::io::Error::new(
            std::io::ErrorKind::BrokenPipe,
            "substream failure",
        )),
        FileOpenError::Io
    );
}

#[test]
fn capability_probe_creates_no_state_or_error() {
    for role in [FileSubstreamRole::Active, FileSubstreamRole::Busy] {
        assert_eq!(
            serve_one_file_substream(Ok(FileOpenFrame::Probe), role, true),
            ServeAction::Close
        );
        assert_eq!(
            serve_one_file_substream(Err(FileOpenError::Protocol), role, true),
            ServeAction::Close
        );
    }
    assert_eq!(
        serve_one_file_substream(
            Ok(FileOpenFrame::Upload {
                destination: String::new(),
                file_name: "f.bin".to_owned(),
                declared_size: 1,
            }),
            FileSubstreamRole::Active,
            false,
        ),
        ServeAction::Close
    );
}

#[test]
fn unresolvable_download_requests_close_without_state_or_reply() {
    let open = || {
        Ok(FileOpenFrame::Download {
            source: "in/f".to_owned(),
        })
    };
    assert_eq!(
        serve_one_file_substream(open(), FileSubstreamRole::Active, false),
        ServeAction::Close
    );
    assert_eq!(
        serve_one_file_substream(open(), FileSubstreamRole::Active, true),
        ServeAction::Download {
            source: "in/f".to_owned()
        }
    );
}

#[test]
fn second_substream_during_a_transfer_is_answered_busy() {
    let idle = FileSlots {
        active: false,
        busy: false,
    };
    let (slots, action) = file_substream_coordinator(idle, FileEvent::Substream);
    assert_eq!(action, FileAction::Serve(FileSubstreamRole::Active));
    let (slots, action) = file_substream_coordinator(slots, FileEvent::Substream);
    assert_eq!(action, FileAction::Serve(FileSubstreamRole::Busy));
    assert!(slots.active && slots.busy);
    assert_eq!(
        serve_one_file_substream(
            Ok(FileOpenFrame::Upload {
                destination: String::new(),
                file_name: "other.bin".to_owned(),
                declared_size: 1,
            }),
            FileSubstreamRole::Busy,
            true,
        ),
        ServeAction::ReplyBusy
    );
}

#[test]
fn third_substream_while_both_slots_are_occupied_is_dropped() {
    let full = FileSlots {
        active: true,
        busy: true,
    };
    let (slots, action) = file_substream_coordinator(full, FileEvent::Substream);
    assert_eq!(action, FileAction::Drop);
    assert_eq!(slots, full);
    assert_eq!(FILE_SUBSTREAM_QUEUE, 1);
}

#[test]
fn coordinator_reuses_the_active_slot_after_a_transfer_completes() {
    let active = FileSlots {
        active: true,
        busy: false,
    };
    let (slots, action) = file_substream_coordinator(active, FileEvent::ActiveEnded);
    assert_eq!(action, FileAction::Wait);
    let (slots, action) = file_substream_coordinator(slots, FileEvent::Substream);
    assert_eq!(action, FileAction::Serve(FileSubstreamRole::Active));
    let (slots, action) = file_substream_coordinator(slots, FileEvent::Substream);
    assert_eq!(action, FileAction::Serve(FileSubstreamRole::Busy));
    let (slots, _) = file_substream_coordinator(slots, FileEvent::BusyEnded);
    assert_eq!(slots, active);
    let (slots, action) = file_substream_coordinator(slots, FileEvent::QueueClosed);
    assert_eq!(action, FileAction::Wait);
    let (slots, _) = file_substream_coordinator(slots, FileEvent::ActiveEnded);
    let (_, action) = file_substream_coordinator(slots, FileEvent::QueueClosed);
    assert_eq!(action, FileAction::End);
}
