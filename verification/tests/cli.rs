use std::io::{self, Cursor, Read};
use yon::cli::{
    accept_ca_document, check_ca_length, command_uses_terminal_ui, configuration_file_status,
    configuration_sources, diagnostic_filter, map_controller_error, portable_process_exit,
    process_result, remote_exit_warning, validate_diagnostic_output, AppError, CodeReader, CodeStep,
    Command, ConfigurationFileStatus, ControllerError, LogLevel, ProcessReport, FAILURE_EXIT,
    INTERRUPTED_EXIT, MAX_CA_DOCUMENT, RUNTIME_SHUTDOWN_TIMEOUT, USAGE_EXIT,
};
use yon::failure::{AuditError, Cause, IoFailure, OutsideText, TerminalError};
use yon::host::HostError;
use yon::network::{EndpointError, SECOND};
use yon::pake::OpaquePakeError;
use yon::protocol::RelayProtocolError;

/// The exit code for a result.
fn exit(result: Result<u32, AppError>) -> u8 {
    process_result(&result).exit
}

/// The text of the code on the first line of the input.
fn read_connection_code_from(reader: &mut impl Read) -> Result<String, AppError> {
    let mut line = CodeReader::new();
    loop {
        let mut byte = [0_u8; 1];
        let read = match reader.read(&mut byte) {
            Ok(0) => None,
            Ok(_) => Some(byte[0]),
            Err(_) => return Err(AppError::CodeRead),
        };
        match line.take(read) {
            CodeStep::More => {}
            CodeStep::Invalid => return Err(AppError::ConnectionCodeInput),
            CodeStep::Line(text) => return Ok(text),
        }
    }
}

/// The symbols of a code in their groups.
fn exposed(code: &str) -> String {
    let symbols: Vec<char> = code.chars().filter(|symbol| *symbol != '-').collect();
    let groups: Vec<String> = symbols.chunks(4).map(String::from_iter).collect();
    groups.join("-")
}

struct FailingReader;

impl Read for FailingReader {
    fn read(&mut self, _buffer: &mut [u8]) -> io::Result<usize> {
        Err(io::Error::other("read failed"))
    }
}

#[test]
fn terminal_connect_diagnostics_require_explicit_stderr_redirection() {
    for level in [
        LogLevel::Warn,
        LogLevel::Info,
        LogLevel::Debug,
        LogLevel::Trace,
    ] {
        assert!(matches!(
            validate_diagnostic_output(level, true, false),
            Err(AppError::InteractiveDiagnostics)
        ));
        assert!(validate_diagnostic_output(level, false, false).is_ok());
        assert!(validate_diagnostic_output(level, true, true).is_ok());
    }
    for level in [LogLevel::Off, LogLevel::Error] {
        assert!(validate_diagnostic_output(level, true, false).is_ok());
    }
    assert_eq!(diagnostic_filter(LogLevel::Error, true), LogLevel::Off);
    assert_eq!(diagnostic_filter(LogLevel::Debug, false), LogLevel::Debug);

    let connect = Command::Connect;
    assert!(command_uses_terminal_ui(connect, true, true));
    assert!(!command_uses_terminal_ui(connect, false, true));
    assert!(!command_uses_terminal_ui(connect, true, false));
    assert!(command_uses_terminal_ui(Command::Host, true, true));
    assert!(!command_uses_terminal_ui(Command::Config, true, true));
}

#[test]
fn portable_process_exit_preserves_out_of_range_remote_values() {
    assert_eq!(portable_process_exit(0), Ok(0));
    assert_eq!(portable_process_exit(255), Ok(255));
    assert_eq!(portable_process_exit(256), Err(256));
    assert_eq!(exit(Ok(256)), FAILURE_EXIT);
    assert_eq!(
        process_result(&Ok(256)).report,
        ProcessReport::RemoteExit(256)
    );
    assert_eq!(
        remote_exit_warning(256),
        "warning: remote exit code 256 exceeds the portable process range; returning 1\n"
    );
    assert_eq!(
        remote_exit_warning(u32::MAX),
        "warning: remote exit code 4294967295 exceeds the portable process range; returning 1\n"
    );
}

#[test]
fn local_interrupts_map_to_130_and_runtime_shutdown_is_bounded() {
    assert_eq!(
        exit(Err(AppError::Controller {
            error: ControllerError::Interrupted,
            text: "interrupted".to_owned(),
        })),
        130
    );
    assert_eq!(exit(Err(AppError::Host(HostError::Interrupted))), 130);
    assert_eq!(INTERRUPTED_EXIT, 130);
    assert_eq!(RUNTIME_SHUTDOWN_TIMEOUT, SECOND);
}

#[test]
fn connection_code_input_errors_preserve_usage_exit_without_echoing_values() {
    assert_eq!(exit(Err(AppError::ConnectionCodeInput)), 2);
    assert_eq!(USAGE_EXIT, 2);
    assert_eq!(exit(Err(AppError::ConnectionCodeUnavailable)), FAILURE_EXIT);
    assert_eq!(exit(Err(AppError::Diagnostics)), FAILURE_EXIT);
    assert_eq!(exit(Err(AppError::SharedConnectionCode)), FAILURE_EXIT);

    for error in [
        AppError::CaTooLarge,
        AppError::InteractiveDiagnostics,
        AppError::RuntimePanicked,
        AppError::CodeRead,
        AppError::CaRead("CA read failed".to_owned()),
        AppError::Runtime("runtime construction failed".to_owned()),
        AppError::RuntimeThread("runtime thread failed".to_owned()),
    ] {
        assert_eq!(exit(Err(error)), FAILURE_EXIT);
    }

    for error in [
        AppError::ConnectionCodeInput,
        AppError::ConnectionCodeUnavailable,
    ] {
        let report = format!("error: {}\n", error.message().unwrap());
        assert_eq!(report, "error: connection code is invalid or expired\n");
        for forbidden in ["OPAQUE", "PeerId", "locator", "0000-0000-0000-0000"] {
            assert!(
                !report.contains(forbidden),
                "public error leaked {forbidden}"
            );
        }
    }
}

#[test]
fn remote_code_rejections_use_the_same_public_error_boundary() {
    for error in [
        ControllerError::Pake(OpaquePakeError::Rejected),
        ControllerError::Relay(RelayProtocolError::Unavailable),
    ] {
        assert!(matches!(
            map_controller_error(error, "refused".to_owned()),
            AppError::ConnectionCodeUnavailable
        ));
    }
    assert!(matches!(
        map_controller_error(ControllerError::Timeout, "late".to_owned()),
        AppError::Controller {
            error: ControllerError::Timeout,
            ..
        }
    ));
}

#[test]
fn piped_connection_code_is_bounded_and_accepts_platform_lines() {
    for input in [
        b"0000-0000-0000-0000\n".as_slice(),
        b"0000-0000-0000-0000\r\n".as_slice(),
        b"0000000000000000\r\n".as_slice(),
    ] {
        let code = read_connection_code_from(&mut Cursor::new(input)).unwrap();
        assert_eq!(exposed(&code), "0000-0000-0000-0000");
    }
    assert!(matches!(
        read_connection_code_from(&mut Cursor::new(b"0000-0000-0000-00000\n")),
        Err(AppError::ConnectionCodeInput)
    ));
    assert!(matches!(
        read_connection_code_from(&mut Cursor::new(b"000000000000000000000")),
        Err(AppError::ConnectionCodeInput)
    ));
    assert!(matches!(
        read_connection_code_from(&mut Cursor::new([0xFF, b'\n'])),
        Err(AppError::ConnectionCodeInput)
    ));
    assert!(matches!(
        read_connection_code_from(&mut FailingReader),
        Err(AppError::CodeRead)
    ));

    let mut input = Cursor::new(b"0000000000000000\necho next\n".as_slice());
    read_connection_code_from(&mut input).unwrap();
    let mut remaining = Vec::new();
    input.read_to_end(&mut remaining).unwrap();
    assert_eq!(remaining, b"echo next\n");
}

#[test]
fn a_line_is_handed_on_as_it_was_typed() {
    for (input, text) in [
        (b"0000000000000000\r\n".as_slice(), "0000000000000000"),
        (b"invalid\n".as_slice(), "invalid"),
    ] {
        assert_eq!(
            read_connection_code_from(&mut Cursor::new(input)).unwrap(),
            text
        );
    }
}

#[test]
fn a_reader_begins_anew_after_a_line() {
    let mut line = CodeReader::new();
    assert!(matches!(line.take(Some(b'a')), CodeStep::More));
    assert!(matches!(line.take(None), CodeStep::Line(text) if text == "a"));
    assert!(matches!(line.take(Some(b'b')), CodeStep::More));
    line.zeroize();
    assert!(matches!(line.take(Some(b'c')), CodeStep::More));
    assert!(matches!(line.take(Some(b'\n')), CodeStep::Line(text) if text == "c"));
}

#[test]
fn a_code_line_ends_with_the_input_and_keeps_its_text() {
    assert_eq!(
        read_connection_code_from(&mut Cursor::new(b"")).unwrap(),
        ""
    );
    assert_eq!(
        read_connection_code_from(&mut Cursor::new(b"ab\r")).unwrap(),
        "ab"
    );
    assert_eq!(
        read_connection_code_from(&mut Cursor::new("\u{e9}t\u{e9}\n".as_bytes())).unwrap(),
        "\u{e9}t\u{e9}"
    );
}

#[test]
fn configuration_source_report_is_ordered_and_hides_values() {
    let report = configuration_sources(
        "/system/yon.toml",
        ConfigurationFileStatus::Present,
        "/working/yon.toml",
        ConfigurationFileStatus::Missing,
        "YON",
    );
    assert_eq!(
        report,
        "Configuration precedence (lowest to highest):\n\
         1. System file: /system/yon.toml (present)\n\
         2. Working-directory file: /working/yon.toml (missing)\n\
         3. Environment variables: YON_* (values hidden)\n"
    );
    assert!(!report.contains("relays ="));
}

#[test]
fn configuration_status_and_diagnostic_log_failures_are_structured() {
    assert_eq!(
        configuration_file_status(Ok(true)).unwrap(),
        ConfigurationFileStatus::Present
    );
    assert_eq!(
        configuration_file_status(Ok(false)).unwrap(),
        ConfigurationFileStatus::NotRegular
    );
    assert_eq!(
        ConfigurationFileStatus::NotRegular.shown(),
        "not a regular file"
    );
    assert_eq!(
        configuration_file_status(Err(IoFailure::NotFound)).unwrap(),
        ConfigurationFileStatus::Missing
    );
    assert_eq!(
        configuration_file_status(Err(IoFailure::Other)),
        Err(IoFailure::Other)
    );
    assert_eq!(
        AppError::ConfigurationSource {
            path: "/yon.toml".to_owned(),
            source: "denied".to_owned(),
        }
        .message()
        .unwrap(),
        "failed to inspect configuration source /yon.toml: denied"
    );
    assert_eq!(
        AppError::LogFile {
            path: "yon.log".to_owned(),
            source: "is a directory".to_owned(),
        }
        .message()
        .unwrap(),
        "failed to open diagnostic log file yon.log: is a directory"
    );
}

#[test]
fn endpoint_ca_files_are_bounded_and_relay_sets_are_validated() {
    assert_eq!(accept_ca_document(vec![1, 2, 3]).unwrap(), [1, 2, 3]);
    assert_eq!(MAX_CA_DOCUMENT, 1024 * 1024);
    assert!(check_ca_length(1024 * 1024).is_ok());
    assert!(matches!(
        check_ca_length(1024 * 1024 + 1),
        Err(AppError::CaTooLarge)
    ));
    assert!(accept_ca_document(vec![0; 1024 * 1024]).is_ok());
    assert!(matches!(
        accept_ca_document(vec![0; 1024 * 1024 + 1]),
        Err(AppError::CaTooLarge)
    ));
}

#[test]
fn failures_have_their_messages() {
    for (error, message) in [
        (AppError::Diagnostics, "failed to initialize diagnostics"),
        (
            AppError::RelaySet("empty".to_owned()),
            "the relay address set is invalid: empty",
        ),
        (
            AppError::Configuration("syntax".to_owned()),
            "failed to load endpoint configuration: syntax",
        ),
        (
            AppError::ConfigurationOutput,
            "failed to report configuration status",
        ),
        (
            AppError::Identity("no randomness".to_owned()),
            "failed to create an ephemeral endpoint identity: no randomness",
        ),
        (
            AppError::CaRead("missing".to_owned()),
            "failed to read the WSS CA document: missing",
        ),
        (
            AppError::CaTooLarge,
            "the WSS CA document exceeds the 1 MiB limit",
        ),
        (
            AppError::Runtime("limit".to_owned()),
            "failed to construct the async runtime: limit",
        ),
        (
            AppError::RuntimeThread("limit".to_owned()),
            "failed to start the endpoint runtime thread: limit",
        ),
        (
            AppError::RuntimePanicked,
            "the endpoint runtime thread panicked",
        ),
        (AppError::CodeRead, "failed to read the connection code"),
        (
            AppError::Host(HostError::Endpoint(EndpointError::RelayUnavailable)),
            "no configured relay transport became usable",
        ),
    ] {
        assert_eq!(error.message().unwrap(), message);
    }
    let controller = AppError::Controller {
        error: ControllerError::Timeout,
        text: "the session timed out".to_owned(),
    };
    assert_eq!(controller.message().unwrap(), "the session timed out");
    assert!(controller.cause().is_none());
}

#[test]
fn outside_causes_follow_the_message() {
    let reason = OutsideText(4);
    let build = AppError::Host(HostError::Endpoint(EndpointError::Build(reason)));
    assert_eq!(
        build.message().unwrap(),
        "failed to construct the endpoint network: "
    );
    assert_eq!(build.cause(), Some(Cause::Kept(reason)));
    let relay = HostError::Relay(RelayProtocolError::Endpoint(EndpointError::Build(reason)));
    assert_eq!(relay.cause(), Some(Cause::Kept(reason)));
    let terminal = AppError::Host(HostError::Terminal(TerminalError::Other(reason)));
    assert!(terminal.message().is_none());
    assert_eq!(
        terminal.cause(),
        Some(Cause::Terminal(TerminalError::Other(reason)))
    );
    let audit = HostError::Audit(AuditError::FailedClosed);
    assert_eq!(audit.cause(), Some(Cause::Audit(AuditError::FailedClosed)));
    assert!(AppError::CaTooLarge.cause().is_none());
}

#[test]
fn success_passes_the_remote_exit_on_without_a_report() {
    let end = process_result(&Ok(7));
    assert_eq!(end.exit, 7);
    assert_eq!(end.report, ProcessReport::Nothing);
    assert!(!end.fresh_line);
    let interrupted = process_result(&Err(AppError::Host(HostError::Interrupted)));
    assert_eq!(interrupted.report, ProcessReport::Nothing);
    let failed = process_result(&Err(AppError::CaTooLarge));
    assert_eq!(failed.report, ProcessReport::Failure);
    assert!(!failed.fresh_line);
    let lost = process_result(&Err(AppError::Host(HostError::ConnectionLost)));
    assert!(lost.fresh_line);
}
