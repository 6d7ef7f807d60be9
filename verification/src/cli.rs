//! What the command line decides: where diagnostics go, what is read as a
//! connection code, what is reported, and how the process exits.

use crate::failure::{Cause, IoFailure};
use crate::host::HostError;
use crate::network::SECOND;
use crate::pake::{wipe, OpaquePakeError};
use crate::protocol::RelayProtocolError;
use vstd::prelude::*;
use vstd::string::StringExecFns;

verus! {

/// The largest CA document that is read.
pub const MAX_CA_DOCUMENT: u64 = 1024 * 1024;

/// The longest connection code, in bytes.
pub const MAX_CODE_TEXT: usize = 19;

/// The bytes that are read of a line at most: a code and both bytes of a line end.
pub const CODE_BUFFER: usize = 21;

/// Bound of the shutdown of the runtime.
pub const RUNTIME_SHUTDOWN_TIMEOUT: u64 = SECOND;

/// The exit code of an interrupted process.
pub const INTERRUPTED_EXIT: u8 = 130;

/// The exit code after a misused command line.
pub const USAGE_EXIT: u8 = 2;

/// The exit code after any other failure.
pub const FAILURE_EXIT: u8 = 1;

/// The byte that ends a line.
pub const LINE_FEED: u8 = 10;

/// The byte that may stand in front of it.
pub const CARRIAGE_RETURN: u8 = 13;

// ---------------------------------------------------------------------------
// Diagnostics
// ---------------------------------------------------------------------------

/// How much is reported for diagnosis.
#[derive(Debug, Clone, Copy, PartialEq, Eq, Structural)]
pub enum LogLevel {
    Off,
    Error,
    Warn,
    Info,
    Debug,
    Trace,
}

impl LogLevel {
    /// Whether the level says so much that it must not share a terminal with the
    /// session.
    #[must_use]
    pub fn requires_redirect_for_terminal(self) -> (required: bool)
        ensures
            required == !(self is Off || self is Error),
    {
        matches!(self, LogLevel::Warn | LogLevel::Info | LogLevel::Debug | LogLevel::Trace)
    }
}

/// What a user asked for.
#[derive(Debug, Clone, Copy, PartialEq, Eq, Structural)]
pub enum Command {
    Host,
    Connect,
    Config,
}

impl Command {
    /// Whether the command shows its progress on a terminal.
    #[must_use]
    pub fn uses_terminal_ui(self) -> (used: bool)
        ensures
            used == (self is Host || self is Connect),
    {
        matches!(self, Command::Host | Command::Connect)
    }
}

/// Whether a command shows its progress on the terminal that it has.
pub fn command_uses_terminal_ui(
    command: Command,
    stdout_is_terminal: bool,
    stderr_is_terminal: bool,
) -> (used: bool)
    ensures
        used == ((command is Host || command is Connect) && stdout_is_terminal
            && stderr_is_terminal),
{
    command.uses_terminal_ui() && stdout_is_terminal && stderr_is_terminal
}

/// Refuses diagnostics that would disturb the terminal.
pub fn validate_diagnostic_output(level: LogLevel, terminal_output: bool, has_log_file: bool) -> (
    result: Result<(), AppError>)
    ensures
        match result {
            Ok(_) => !(terminal_output && !has_log_file && !(level is Off || level is Error)),
            Err(error) => terminal_output && !has_log_file && !(level is Off || level is Error)
                && error == AppError::InteractiveDiagnostics,
        },
{
    if terminal_output && !has_log_file && level.requires_redirect_for_terminal() {
        return Err(AppError::InteractiveDiagnostics);
    }
    Ok(())
}

/// The level that diagnostics are filtered by: none where they share the terminal.
pub fn diagnostic_filter(level: LogLevel, terminal_output: bool) -> (filter: LogLevel)
    ensures
        filter == if terminal_output {
            LogLevel::Off
        } else {
            level
        },
{
    if terminal_output {
        LogLevel::Off
    } else {
        level
    }
}

// ---------------------------------------------------------------------------
// Failures
// ---------------------------------------------------------------------------

/// A failure of a controller, as far as the command line tells them apart.
#[derive(Debug, Clone, Copy, PartialEq, Eq, Structural)]
pub enum ControllerError {
    Pake(OpaquePakeError),
    Relay(RelayProtocolError),
    Timeout,
    Interrupted,
    /// Any other failure.
    Other,
}

/// Why a command failed. A `String` is the text of what caused it, or a path.
#[derive(Debug)]
pub enum AppError {
    Diagnostics,
    InteractiveDiagnostics,
    LogFile { path: String, source: String },
    RelaySet(String),
    Configuration(String),
    ConfigurationSource { path: String, source: String },
    ConfigurationOutput,
    Identity(String),
    CaRead(String),
    CaTooLarge,
    Runtime(String),
    RuntimeThread(String),
    RuntimePanicked,
    SharedConnectionCode,
    CodeRead,
    ConnectionCodeInput,
    ConnectionCodeUnavailable,
    Host(HostError),
    Controller { error: ControllerError, text: String },
}

impl AppError {
    /// The text of the message, without that of its cause. That of a host or
    /// controller failure is the failure's own.
    pub open spec fn text(self) -> Option<Seq<char>> {
        match self {
            AppError::Diagnostics => Some("failed to initialize diagnostics"@),
            AppError::InteractiveDiagnostics => Some(
                "--log-level warn/info/debug/trace requires --log-file <PATH> or stderr redirection while terminal progress is active (for example: yon --log-level debug --log-file yon-debug.log connect)"@,
            ),
            AppError::LogFile { path, source } => Some(
                "failed to open diagnostic log file "@ + path@ + ": "@ + source@,
            ),
            AppError::RelaySet(source) => Some("the relay address set is invalid: "@ + source@),
            AppError::Configuration(source) => Some(
                "failed to load endpoint configuration: "@ + source@,
            ),
            AppError::ConfigurationSource { path, source } => Some(
                "failed to inspect configuration source "@ + path@ + ": "@ + source@,
            ),
            AppError::ConfigurationOutput => Some("failed to report configuration status"@),
            AppError::Identity(source) => Some(
                "failed to create an ephemeral endpoint identity: "@ + source@,
            ),
            AppError::CaRead(source) => Some("failed to read the WSS CA document: "@ + source@),
            AppError::CaTooLarge => Some("the WSS CA document exceeds the 1 MiB limit"@),
            AppError::Runtime(source) => Some(
                "failed to construct the async runtime: "@ + source@,
            ),
            AppError::RuntimeThread(source) => Some(
                "failed to start the endpoint runtime thread: "@ + source@,
            ),
            AppError::RuntimePanicked => Some("the endpoint runtime thread panicked"@),
            AppError::SharedConnectionCode => Some(
                "the parsed connection code retained an unexpected shared owner"@,
            ),
            AppError::CodeRead => Some("failed to read the connection code"@),
            AppError::ConnectionCodeInput | AppError::ConnectionCodeUnavailable => Some(
                "connection code is invalid or expired"@,
            ),
            AppError::Host(error) => error.text(),
            AppError::Controller { text, .. } => Some(text@),
        }
    }

    /// What follows the text of the message.
    pub open spec fn origin(self) -> Option<Cause> {
        match self {
            AppError::Host(error) => error.origin(),
            _ => None,
        }
    }

    /// What follows the message.
    pub fn cause(&self) -> (cause: Option<Cause>)
        ensures
            cause == self.origin(),
    {
        match self {
            AppError::Host(error) => error.cause(),
            _ => None,
        }
    }

    /// The message shown for the failure, unless all of it is that of its cause.
    pub fn message(&self) -> (text: Option<String>)
        ensures
            text is Some <==> self.text() is Some,
            text is Some ==> text->0@ == self.text()->0,
    {
        let text = match self {
            AppError::Diagnostics => "failed to initialize diagnostics".to_owned(),
            AppError::InteractiveDiagnostics => {
                "--log-level warn/info/debug/trace requires --log-file <PATH> or stderr redirection while terminal progress is active (for example: yon --log-level debug --log-file yon-debug.log connect)".to_owned()
            },
            AppError::LogFile { path, source } => {
                "failed to open diagnostic log file ".to_owned().concat(path.as_str()).concat(
                    ": ",
                ).concat(source.as_str())
            },
            AppError::RelaySet(source) => "the relay address set is invalid: ".to_owned().concat(
                source.as_str(),
            ),
            AppError::Configuration(source) => {
                "failed to load endpoint configuration: ".to_owned().concat(source.as_str())
            },
            AppError::ConfigurationSource { path, source } => {
                "failed to inspect configuration source ".to_owned().concat(path.as_str()).concat(
                    ": ",
                ).concat(source.as_str())
            },
            AppError::ConfigurationOutput => "failed to report configuration status".to_owned(),
            AppError::Identity(source) => {
                "failed to create an ephemeral endpoint identity: ".to_owned().concat(
                    source.as_str(),
                )
            },
            AppError::CaRead(source) => "failed to read the WSS CA document: ".to_owned().concat(
                source.as_str(),
            ),
            AppError::CaTooLarge => "the WSS CA document exceeds the 1 MiB limit".to_owned(),
            AppError::Runtime(source) => {
                "failed to construct the async runtime: ".to_owned().concat(source.as_str())
            },
            AppError::RuntimeThread(source) => {
                "failed to start the endpoint runtime thread: ".to_owned().concat(source.as_str())
            },
            AppError::RuntimePanicked => "the endpoint runtime thread panicked".to_owned(),
            AppError::SharedConnectionCode => {
                "the parsed connection code retained an unexpected shared owner".to_owned()
            },
            AppError::CodeRead => "failed to read the connection code".to_owned(),
            AppError::ConnectionCodeInput | AppError::ConnectionCodeUnavailable => {
                "connection code is invalid or expired".to_owned()
            },
            AppError::Host(error) => {
                return error.message();
            },
            AppError::Controller { text, .. } => text.clone(),
        };
        Some(text)
    }
}

/// A failure of the controller as the user learns of it.
pub open spec fn user_error(error: ControllerError, text: String) -> AppError {
    if error is Pake || error == ControllerError::Relay(RelayProtocolError::Unavailable) {
        AppError::ConnectionCodeUnavailable
    } else {
        AppError::Controller { error, text }
    }
}

/// A failure of the controller as the user learns of it: that the code was refused
/// is said without saying by whom. `text` is the failure's own message.
pub fn map_controller_error(error: ControllerError, text: String) -> (mapped: AppError)
    ensures
        mapped == user_error(error, text),
{
    match error {
        ControllerError::Pake(_) | ControllerError::Relay(RelayProtocolError::Unavailable) => {
            AppError::ConnectionCodeUnavailable
        },
        _ => AppError::Controller { error, text },
    }
}

// ---------------------------------------------------------------------------
// The exit of the process
// ---------------------------------------------------------------------------

/// The exit code of the process for that of the remote shell.
pub open spec fn portable_exit(code: u32) -> Result<u8, u32> {
    if code <= u8::MAX {
        Ok(code as u8)
    } else {
        Err(code)
    }
}

/// The exit code of the process for that of the remote shell, where a process can
/// exit with it.
pub fn portable_process_exit(code: u32) -> (exit: Result<u8, u32>)
    ensures
        exit == portable_exit(code),
{
    if code <= 255 {
        Ok(code as u8)
    } else {
        Err(code)
    }
}

/// How the process ends.
#[derive(Debug, Clone, Copy, PartialEq, Eq, Structural)]
pub struct ProcessEnd {
    /// Whether a report begins on a line of its own.
    pub fresh_line: bool,
    pub report: ProcessReport,
    pub exit: u8,
}

/// What is reported at the end of a process.
#[derive(Debug, Clone, Copy, PartialEq, Eq, Structural)]
pub enum ProcessReport {
    Nothing,
    /// The failure.
    Failure,
    /// That the remote exit code cannot be passed on.
    RemoteExit(u32),
}

/// How the process ends with the result of a command.
pub open spec fn process_end(result: Result<u32, AppError>) -> ProcessEnd {
    match result {
        Ok(code) => if code <= u8::MAX {
            ProcessEnd { fresh_line: false, report: ProcessReport::Nothing, exit: code as u8 }
        } else {
            ProcessEnd {
                fresh_line: true,
                report: ProcessReport::RemoteExit(code),
                exit: FAILURE_EXIT,
            }
        },
        Err(AppError::Controller { error: ControllerError::Interrupted, .. })
        | Err(AppError::Host(HostError::Interrupted)) => ProcessEnd {
            fresh_line: true,
            report: ProcessReport::Nothing,
            exit: INTERRUPTED_EXIT,
        },
        Err(error) => ProcessEnd {
            fresh_line: error is Controller || error is Host,
            report: ProcessReport::Failure,
            exit: if error is ConnectionCodeInput {
                USAGE_EXIT
            } else {
                FAILURE_EXIT
            },
        },
    }
}

/// How the process ends with the result of a command.
pub fn process_result(result: &Result<u32, AppError>) -> (end: ProcessEnd)
    ensures
        end == process_end(*result),
{
    match result {
        Ok(code) => match portable_process_exit(*code) {
            Ok(exit) => ProcessEnd { fresh_line: false, report: ProcessReport::Nothing, exit },
            Err(code) => ProcessEnd {
                fresh_line: true,
                report: ProcessReport::RemoteExit(code),
                exit: FAILURE_EXIT,
            },
        },
        Err(AppError::Controller { error: ControllerError::Interrupted, .. })
        | Err(AppError::Host(HostError::Interrupted)) => ProcessEnd {
            fresh_line: true,
            report: ProcessReport::Nothing,
            exit: INTERRUPTED_EXIT,
        },
        Err(AppError::Controller { .. }) | Err(AppError::Host(_)) => ProcessEnd {
            fresh_line: true,
            report: ProcessReport::Failure,
            exit: FAILURE_EXIT,
        },
        Err(AppError::ConnectionCodeInput) => ProcessEnd {
            fresh_line: false,
            report: ProcessReport::Failure,
            exit: USAGE_EXIT,
        },
        Err(_) => ProcessEnd {
            fresh_line: false,
            report: ProcessReport::Failure,
            exit: FAILURE_EXIT,
        },
    }
}

/// The sign of a decimal digit.
pub open spec fn digit(value: nat) -> char {
    (48 + value) as char
}

/// A number in decimal.
pub open spec fn decimal(value: nat) -> Seq<char>
    decreases value,
{
    if value < 10 {
        seq![digit(value)]
    } else {
        decimal(value / 10).push(digit(value % 10))
    }
}

fn digit_text(value: u32) -> (text: &'static str)
    requires
        value < 10,
    ensures
        text@ == seq![digit(value as nat)],
{
    proof {
        reveal_strlit("0");
        reveal_strlit("1");
        reveal_strlit("2");
        reveal_strlit("3");
        reveal_strlit("4");
        reveal_strlit("5");
        reveal_strlit("6");
        reveal_strlit("7");
        reveal_strlit("8");
        reveal_strlit("9");
    }
    let text = if value == 0 {
        "0"
    } else if value == 1 {
        "1"
    } else if value == 2 {
        "2"
    } else if value == 3 {
        "3"
    } else if value == 4 {
        "4"
    } else if value == 5 {
        "5"
    } else if value == 6 {
        "6"
    } else if value == 7 {
        "7"
    } else if value == 8 {
        "8"
    } else {
        "9"
    };
    assert(text@ =~= seq![digit(value as nat)]);
    text
}

fn decimal_text(value: u32) -> (text: String)
    ensures
        text@ == decimal(value as nat),
    decreases value,
{
    if value < 10 {
        digit_text(value).to_owned()
    } else {
        let text = decimal_text(value / 10).concat(digit_text(value % 10));
        assert(text@ =~= decimal(value as nat));
        text
    }
}

/// The warning that a remote exit code cannot be passed on.
pub fn remote_exit_warning(code: u32) -> (line: String)
    ensures
        line@ == "warning: remote exit code "@ + decimal(code as nat)
            + " exceeds the portable process range; returning 1\n"@,
{
    "warning: remote exit code ".to_owned().concat(decimal_text(code).as_str()).concat(
        " exceeds the portable process range; returning 1\n",
    )
}

// ---------------------------------------------------------------------------
// Configuration
// ---------------------------------------------------------------------------

/// What stands where a configuration file is looked for.
#[derive(Debug, Clone, Copy, PartialEq, Eq, Structural)]
pub enum ConfigurationFileStatus {
    Present,
    Missing,
    NotRegular,
}

impl ConfigurationFileStatus {
    /// How the status is shown.
    pub open spec fn text(self) -> Seq<char> {
        match self {
            ConfigurationFileStatus::Present => "present"@,
            ConfigurationFileStatus::Missing => "missing"@,
            ConfigurationFileStatus::NotRegular => "not a regular file"@,
        }
    }

    /// How the status is shown.
    pub fn shown(self) -> (text: &'static str)
        ensures
            text@ == self.text(),
    {
        match self {
            ConfigurationFileStatus::Present => "present",
            ConfigurationFileStatus::Missing => "missing",
            ConfigurationFileStatus::NotRegular => "not a regular file",
        }
    }
}

/// The status of a configuration file out of its metadata.
pub open spec fn file_status(metadata: Result<bool, IoFailure>) -> Result<
    ConfigurationFileStatus,
    IoFailure,
> {
    match metadata {
        Ok(true) => Ok(ConfigurationFileStatus::Present),
        Ok(false) => Ok(ConfigurationFileStatus::NotRegular),
        Err(IoFailure::NotFound) => Ok(ConfigurationFileStatus::Missing),
        Err(failure) => Err(failure),
    }
}

/// The status of a configuration file out of its metadata: whether it is a regular
/// file, or why that could not be found out. A file that does not exist is missing;
/// any other failure is one.
pub fn configuration_file_status(metadata: Result<bool, IoFailure>) -> (status: Result<
    ConfigurationFileStatus,
    IoFailure,
>)
    ensures
        status == file_status(metadata),
{
    match metadata {
        Ok(true) => Ok(ConfigurationFileStatus::Present),
        Ok(false) => Ok(ConfigurationFileStatus::NotRegular),
        Err(IoFailure::NotFound) => Ok(ConfigurationFileStatus::Missing),
        Err(failure) => Err(failure),
    }
}

/// The report on where configuration comes from, in increasing precedence.
pub fn configuration_sources(
    system_file: &str,
    system_status: ConfigurationFileStatus,
    working_file: &str,
    working_status: ConfigurationFileStatus,
    environment_prefix: &str,
) -> (report: String)
    ensures
        report@ == "Configuration precedence (lowest to highest):\n"@ + "1. System file: "@
            + system_file@ + " ("@ + system_status.text() + ")\n"@
            + "2. Working-directory file: "@ + working_file@ + " ("@ + working_status.text()
            + ")\n"@ + "3. Environment variables: "@ + environment_prefix@
            + "_* (values hidden)\n"@,
{
    "Configuration precedence (lowest to highest):\n".to_owned().concat("1. System file: ").concat(
        system_file,
    ).concat(" (").concat(system_status.shown()).concat(")\n").concat(
        "2. Working-directory file: ",
    ).concat(working_file).concat(" (").concat(working_status.shown()).concat(")\n").concat(
        "3. Environment variables: ",
    ).concat(environment_prefix).concat("_* (values hidden)\n")
}

/// Refuses a CA document by the length that its file reports.
pub fn check_ca_length(reported_len: u64) -> (result: Result<(), AppError>)
    ensures
        match result {
            Ok(_) => reported_len <= MAX_CA_DOCUMENT,
            Err(error) => reported_len > MAX_CA_DOCUMENT && error == AppError::CaTooLarge,
        },
{
    if reported_len > MAX_CA_DOCUMENT {
        Err(AppError::CaTooLarge)
    } else {
        Ok(())
    }
}

/// Accepts the bytes of a CA document, of which one more than the bound was read at
/// most.
pub fn accept_ca_document(bytes: Vec<u8>) -> (document: Result<Vec<u8>, AppError>)
    ensures
        match document {
            Ok(document) => bytes@.len() <= MAX_CA_DOCUMENT && document@ == bytes@,
            Err(error) => bytes@.len() > MAX_CA_DOCUMENT && error == AppError::CaTooLarge,
        },
{
    if bytes.len() as u64 > MAX_CA_DOCUMENT {
        Err(AppError::CaTooLarge)
    } else {
        Ok(bytes)
    }
}

// ---------------------------------------------------------------------------
// The connection code
// ---------------------------------------------------------------------------

/// [`std::str::from_utf8`]: the text that the bytes encode, if they are valid.
#[verifier::external_body]
fn text_of(bytes: &[u8]) -> (text: Option<String>)
    ensures
        match text {
            Some(text) => vstd::utf8::valid_utf8(bytes@) && text@ == vstd::utf8::decode_utf8(
                bytes@,
            ),
            None => !vstd::utf8::valid_utf8(bytes@),
        },
{
    std::str::from_utf8(bytes).ok().map(str::to_owned)
}

/// What reading another byte of a code came to.
#[derive(Debug)]
pub enum CodeStep {
    /// Read another byte.
    More,
    /// The line is no connection code.
    Invalid,
    /// The text of the line.
    Line(String),
}

/// A line without the carriage return that it may end with.
pub open spec fn without_return(line: Seq<u8>) -> Seq<u8> {
    if line.len() > 0 && line.last() == CARRIAGE_RETURN {
        line.drop_last()
    } else {
        line
    }
}

/// The text of a line that can be a code.
pub open spec fn code_text(line: Seq<u8>) -> Option<Seq<char>> {
    let code = without_return(line);
    if code.len() <= MAX_CODE_TEXT && vstd::utf8::valid_utf8(code) {
        Some(vstd::utf8::decode_utf8(code))
    } else {
        None
    }
}

/// A connection code that is read byte by byte, so that nothing behind its line is
/// taken. Its bytes lie in one place, which is overwritten when the line ends.
pub struct CodeReader {
    bytes: [u8; CODE_BUFFER],
    len: usize,
}

impl CodeReader {
    #[verifier::type_invariant]
    spec fn wf(self) -> bool {
        self.len < CODE_BUFFER
    }

    /// The bytes of the line so far.
    pub closed spec fn line(self) -> Seq<u8> {
        self.bytes@.take(self.len as int)
    }

    /// All the bytes that are set aside for a line.
    pub closed spec fn stored(self) -> Seq<u8> {
        self.bytes@
    }

    /// Nothing of a line is left.
    pub open spec fn wiped(self) -> bool {
        self.line() == Seq::<u8>::empty() && self.stored() == Seq::new(
            CODE_BUFFER as nat,
            |i: int| 0u8,
        )
    }

    /// Begins a line.
    pub fn new() -> (reader: Self)
        ensures
            reader.wiped(),
    {
        let reader = CodeReader { bytes: [0;CODE_BUFFER], len: 0 };
        assert(reader.line() =~= Seq::<u8>::empty());
        assert(reader.stored() =~= Seq::new(CODE_BUFFER as nat, |i: int| 0u8));
        reader
    }

    /// Overwrites a line that is no longer read.
    pub fn zeroize(&mut self)
        ensures
            final(self).wiped(),
    {
        proof {
            use_type_invariant(&*self);
        }
        wipe(&mut self.bytes);
        self.len = 0;
        assert(self.line() =~= Seq::<u8>::empty());
    }

    /// Takes the next byte into account; there is none at the end of the input. A
    /// line that has ended, or that is too long, is overwritten.
    pub fn take(&mut self, read: Option<u8>) -> (step: CodeStep)
        ensures
            match read {
                Some(byte) if byte != LINE_FEED => if old(self).line().len() + 1 < CODE_BUFFER {
                    step is More && final(self).line() == old(self).line().push(byte)
                        && final(self).stored() == old(self).stored().update(
                        old(self).line().len() as int,
                        byte,
                    )
                } else {
                    step is Invalid && final(self).wiped()
                },
                _ => {
                    &&& final(self).wiped()
                    &&& match code_text(old(self).line()) {
                        Some(text) => step is Line && step->Line_0@ == text,
                        None => step is Invalid,
                    }
                },
            },
    {
        proof {
            use_type_invariant(&*self);
        }
        let mut len: usize = self.len;
        match read {
            Some(byte) => {
                if byte != LINE_FEED {
                    if len + 1 == CODE_BUFFER {
                        self.zeroize();
                        return CodeStep::Invalid;
                    }
                    self.bytes[len] = byte;
                    self.len = len + 1;
                    assert(self.line() =~= old(self).line().push(byte));
                    return CodeStep::More;
                }
            },
            None => {},
        }
        if len > 0 && self.bytes[len - 1] == CARRIAGE_RETURN {
            len = len - 1;
        }
        assert(self.bytes@.take(len as int) =~= without_return(self.line()));
        let step = if len > MAX_CODE_TEXT {
            CodeStep::Invalid
        } else {
            let code = &self.bytes.as_slice()[0..len];
            assert(code@ =~= self.bytes@.take(len as int));
            match text_of(code) {
                Some(text) => CodeStep::Line(text),
                None => CodeStep::Invalid,
            }
        };
        self.zeroize();
        step
    }
}

// ---------------------------------------------------------------------------
// Laws
// ---------------------------------------------------------------------------

/// A refused code looks the same to the user wherever it was refused.
pub proof fn law_refusals_look_alike()
    ensures
        AppError::ConnectionCodeInput.text() == AppError::ConnectionCodeUnavailable.text(),
{
}

/// A line ends a code alike with and without a carriage return.
pub proof fn law_both_line_ends_are_accepted(code: Seq<u8>)
    requires
        code.len() == 0 || code.last() != CARRIAGE_RETURN,
    ensures
        code_text(code.push(CARRIAGE_RETURN)) == code_text(code),
{
    assert(code.push(CARRIAGE_RETURN).drop_last() =~= code);
}

/// A process fails exactly where it has a failure to report, a remote exit code that
/// it cannot pass on, or the shell itself failed.
pub proof fn law_success_is_exit_zero(result: Result<u32, AppError>)
    ensures
        process_end(result).exit == 0 <==> result is Ok && result->Ok_0 == 0,
{
}

/// That a code was refused is told without saying by whom: by the relay, or by the host.
/// Every other failure is told as it is, with its own text.
pub proof fn law_only_a_refused_code_is_told_without_its_reason(
    error: ControllerError,
    text: String,
)
    ensures
        user_error(error, text) == AppError::ConnectionCodeUnavailable <==> error is Pake || error
            == ControllerError::Relay(RelayProtocolError::Unavailable),
        user_error(error, text) != AppError::ConnectionCodeUnavailable ==> user_error(error, text)
            == (AppError::Controller { error, text }),
{
}

/// The process exits with the code of the remote shell wherever it can; where it cannot,
/// it says so and fails. What it reports begins on a line of its own when a terminal was
/// shown.
pub proof fn law_the_shells_exit_code_is_passed_on(code: u32)
    ensures
        code < 256 ==> process_end(Ok(code)) == (ProcessEnd {
            fresh_line: false,
            report: ProcessReport::Nothing,
            exit: code as u8,
        }) && portable_exit(code) == Ok::<u8, u32>(code as u8),
        code >= 256 ==> process_end(Ok(code)) == (ProcessEnd {
            fresh_line: true,
            report: ProcessReport::RemoteExit(code),
            exit: 1,
        }) && portable_exit(code) == Err::<u8, u32>(code),
{
}

/// An interrupted process says nothing and exits with the code of an interruption; every
/// other failure is reported, and exits with that of wrong usage only for a code that was
/// typed wrongly.
pub proof fn law_how_a_failed_process_ends(error: AppError)
    ensures
        ({
            let end = process_end(Err(error));
            let interrupted = error == AppError::Host(HostError::Interrupted) || (
            error matches AppError::Controller { error: ControllerError::Interrupted, .. });
            &&& interrupted <==> end.exit == 130
            &&& interrupted <==> end.report == ProcessReport::Nothing
            &&& !interrupted <==> end.report == ProcessReport::Failure
            &&& end.exit == 2 <==> error is ConnectionCodeInput
            &&& !interrupted && !(error is ConnectionCodeInput) ==> end.exit == 1
            &&& end.fresh_line <==> error is Host || error is Controller
        }),
{
}

/// The number that decimal signs stand for.
pub open spec fn read_decimal(text: Seq<char>) -> int
    decreases text.len(),
{
    if text.len() == 0 {
        0
    } else {
        10 * read_decimal(text.drop_last()) + (text.last() as int - '0' as int)
    }
}

/// A number in decimal reads back as the number, holds nothing but digits, and does not
/// begin with a zero unless it is one.
pub proof fn law_decimal_reads_back(value: nat)
    requires
        value <= u32::MAX,
    ensures
        read_decimal(decimal(value)) == value,
        decimal(value).len() > 0,
        forall|i: int| 0 <= i < decimal(value).len() ==> '0' <= #[trigger] decimal(value)[i] <= '9',
        value > 0 ==> decimal(value)[0] != '0',
        value < 10 ==> decimal(value).len() == 1,
    decreases value,
{
    if value < 10 {
        let text = decimal(value);
        assert(text.drop_last() =~= Seq::<char>::empty());
        assert(read_decimal(text.drop_last()) == 0);
    } else {
        let rest = decimal(value / 10);
        let text = decimal(value);
        law_decimal_reads_back(value / 10);
        assert(text.drop_last() =~= rest);
        assert(text.last() == digit(value % 10));
        assert(text[0] == rest[0]);
        assert forall|i: int| 0 <= i < text.len() implies '0' <= #[trigger] text[i] <= '9' by {
            if i < rest.len() {
                assert(text[i] == rest[i]);
            }
        }
    }
}

/// A file that exists is present or no regular file; one that does not is missing, and no
/// other failure is taken for that.
pub proof fn law_only_an_absent_file_is_missing(metadata: Result<bool, IoFailure>)
    ensures
        file_status(metadata) == Ok::<ConfigurationFileStatus, IoFailure>(
            ConfigurationFileStatus::Missing,
        ) <==> metadata == Err::<bool, IoFailure>(IoFailure::NotFound),
        file_status(metadata) == Ok::<ConfigurationFileStatus, IoFailure>(
            ConfigurationFileStatus::Present,
        ) <==> metadata == Ok::<bool, IoFailure>(true),
        file_status(metadata) == Ok::<ConfigurationFileStatus, IoFailure>(
            ConfigurationFileStatus::NotRegular,
        ) <==> metadata == Ok::<bool, IoFailure>(false),
        metadata is Err && metadata->Err_0 != IoFailure::NotFound ==> file_status(metadata)
            == Err::<ConfigurationFileStatus, IoFailure>(metadata->Err_0),
{
}

/// A line is handed on as the text that it encodes, whatever that is, as long as it is no
/// longer than a code can be; a longer one, or one that encodes no text, is not.
pub proof fn law_a_line_is_handed_on_as_it_was_typed(line: Seq<u8>)
    requires
        line.len() == 0 || line.last() != 13,
    ensures
        line.len() <= 19 && vstd::utf8::valid_utf8(line) ==> code_text(line) == Some(
            vstd::utf8::decode_utf8(line),
        ),
        line.len() > 19 || !vstd::utf8::valid_utf8(line) ==> code_text(line) is None,
        code_text(line.push(13)) == code_text(line),
{
    assert(line.push(13).drop_last() =~= line);
}

} // verus!
