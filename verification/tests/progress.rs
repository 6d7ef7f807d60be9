use std::cell::Cell;
use std::collections::VecDeque;
use std::io::{self, Write};
use std::rc::Rc;
use yon::host::HostStage;
use yon::network::SECOND;
use yon::progress::{
    host_stage_message, terminal_supports_progress, ControllerStage, NoopProgress,
    OperationProgress, ProgressOutput, TerminalProgress, HEARTBEAT_INTERVAL, MIN_LINE_CAPACITY,
};

/// A progress line on a writer, with scripted terminal widths.
struct Shown<W: Write> {
    progress: TerminalProgress,
    writer: W,
    columns: VecDeque<Option<usize>>,
}

impl<W: Write> Shown<W> {
    fn with_columns(writer: W, enabled: bool, columns: usize) -> Self {
        Shown {
            progress: TerminalProgress::new(enabled),
            writer,
            columns: VecDeque::from(vec![Some(columns); 16]),
        }
    }

    fn with_scripted_columns(writer: W, enabled: bool, columns: &[Option<usize>]) -> Self {
        Shown {
            progress: TerminalProgress::new(enabled),
            writer,
            columns: columns.iter().copied().collect(),
        }
    }

    fn write(&mut self, text: &str) -> bool {
        self.writer.write_all(text.as_bytes()).is_ok() && self.writer.flush().is_ok()
    }

    fn show(&mut self, message: &str) {
        if !self.progress.enabled {
            return;
        }
        let columns = self.columns.pop_front().unwrap();
        match self.progress.render(columns, message) {
            ProgressOutput::Nothing => {}
            ProgressOutput::LineBreak => {
                self.write("\r\n");
            }
            ProgressOutput::Clear(text) => {
                let written = self.write(&text);
                self.progress.cleared(written);
            }
            ProgressOutput::Draw(text) => {
                let written = self.write(&text);
                self.progress.drawn(written);
            }
        }
    }

    fn update(&mut self, stage: ControllerStage) {
        self.show(&stage.message());
    }

    fn update_host(&mut self, stage: HostStage) {
        self.show(&host_stage_message(stage));
    }

    fn clear_line(&mut self) {
        if let ProgressOutput::Clear(text) = self.progress.clear_line() {
            let written = self.write(&text);
            self.progress.cleared(written);
        }
    }
}

struct FailingWriter;

impl Write for FailingWriter {
    fn write(&mut self, _buffer: &[u8]) -> io::Result<usize> {
        Err(io::Error::other("write failed"))
    }

    fn flush(&mut self) -> io::Result<()> {
        Ok(())
    }
}

struct CallFailingWriter {
    calls: usize,
    fail_at: Option<usize>,
}

impl CallFailingWriter {
    fn never() -> Self {
        CallFailingWriter {
            calls: 0,
            fail_at: None,
        }
    }

    fn at(fail_at: usize) -> Self {
        CallFailingWriter {
            calls: 0,
            fail_at: Some(fail_at),
        }
    }

    fn next(&mut self) -> io::Result<()> {
        let current = self.calls;
        self.calls += 1;
        if self.fail_at == Some(current) {
            Err(io::Error::other("output closed"))
        } else {
            Ok(())
        }
    }
}

impl Write for CallFailingWriter {
    fn write(&mut self, buffer: &[u8]) -> io::Result<usize> {
        self.next()?;
        Ok(buffer.len())
    }

    fn flush(&mut self) -> io::Result<()> {
        self.next()
    }
}

struct ToggleWriter {
    fail: Rc<Cell<bool>>,
}

impl Write for ToggleWriter {
    fn write(&mut self, buffer: &[u8]) -> io::Result<usize> {
        if self.fail.get() {
            Err(io::Error::other("write failed"))
        } else {
            Ok(buffer.len())
        }
    }

    fn flush(&mut self) -> io::Result<()> {
        Ok(())
    }
}

#[test]
fn controller_progress_reuses_and_clears_one_terminal_line() {
    let mut progress = Shown::with_columns(Vec::new(), true, 80);
    for (stage, expected) in [
        (ControllerStage::ConnectingRelay, "Connecting to relay..."),
        (ControllerStage::ResolvingHost, "Finding remote host..."),
        (
            ControllerStage::EstablishingPath,
            "Establishing the best available path...",
        ),
        (
            ControllerStage::RelayFallback,
            "Direct path unavailable; switching to relay...",
        ),
        (
            ControllerStage::Authenticating,
            "Authenticating remote host...",
        ),
        (
            ControllerStage::StartingTerminal,
            "Starting remote terminal...",
        ),
    ] {
        progress.update(stage);
        assert!(String::from_utf8_lossy(&progress.writer).contains(expected));
        assert!(progress.progress.visible);
    }
    progress.clear_line();
    assert!(!progress.progress.visible);

    let mut disabled = Shown::with_columns(Vec::new(), false, 80);
    disabled.update(ControllerStage::ConnectingRelay);
    disabled.clear_line();
    assert!(disabled.writer.is_empty());

    let mut failing = Shown::with_columns(FailingWriter, true, 80);
    failing.update(ControllerStage::ConnectingRelay);
    assert!(!failing.progress.enabled);
    assert!(!failing.progress.visible);

    let mut narrow = Shown::with_columns(Vec::new(), true, 12);
    narrow.update(ControllerStage::ConnectingRelay);
    assert!(narrow.writer.ends_with(b"| Connectin"));
    assert!(!String::from_utf8_lossy(&narrow.writer).contains("Connecting to relay..."));
}

#[test]
fn host_progress_and_terminal_capabilities_are_explicit() {
    let mut progress = Shown::with_columns(Vec::new(), true, 80);
    for stage in [
        HostStage::ConnectingRelay,
        HostStage::ReservingRelay,
        HostStage::RegisteringHost,
        HostStage::WaitingForController,
        HostStage::ReconnectingRelay,
        HostStage::AuthenticatingController,
        HostStage::StartingTerminal,
        HostStage::TerminalActive,
    ] {
        progress.update_host(stage);
    }
    let rendered = String::from_utf8(progress.writer.clone()).unwrap();
    assert!(rendered.contains("Connecting to relay..."));
    assert!(rendered.contains("Waiting for controller..."));
    assert!(rendered.contains("Relay unavailable; reconnecting..."));
    assert!(rendered.contains("Remote terminal active."));

    assert!(terminal_supports_progress(None));
    assert!(terminal_supports_progress(Some("xterm-256color")));
    assert!(!terminal_supports_progress(Some("dumb")));
    assert!(!terminal_supports_progress(Some("DUMB")));
}

#[test]
fn progress_remeasures_width_and_disables_controls_after_query_failure() {
    let mut progress =
        Shown::with_scripted_columns(Vec::new(), true, &[Some(80), Some(12), None, Some(80)]);
    progress.update(ControllerStage::ConnectingRelay);
    progress.update(ControllerStage::ResolvingHost);
    let rendered = String::from_utf8(progress.writer.clone()).unwrap();
    assert!(rendered.contains("Connecting to relay..."));
    assert!(!rendered.contains("Finding remote host..."));

    let before_failure = progress.writer.len();
    progress.update(ControllerStage::Authenticating);
    assert!(!progress.progress.enabled);
    assert!(!progress.progress.visible);
    assert_eq!(&progress.writer[before_failure..], b"\r\n");
    let after_failure = progress.writer.len();
    progress.update(ControllerStage::StartingTerminal);
    assert_eq!(progress.writer.len(), after_failure);

    let mut too_narrow = Shown::with_scripted_columns(Vec::new(), true, &[Some(80), Some(7)]);
    too_narrow.update(ControllerStage::ConnectingRelay);
    too_narrow.update(ControllerStage::ResolvingHost);
    assert!(!too_narrow.progress.enabled);
    assert!(!too_narrow.progress.visible);

    let fail_writes = Rc::new(Cell::new(false));
    let mut failed_clear = Shown::with_columns(
        ToggleWriter {
            fail: Rc::clone(&fail_writes),
        },
        true,
        80,
    );
    failed_clear.update(ControllerStage::ConnectingRelay);
    assert!(failed_clear.progress.visible);
    fail_writes.set(true);
    failed_clear.clear_line();
    assert!(!failed_clear.progress.enabled);
    assert!(!failed_clear.progress.visible);
}

#[test]
fn progress_disables_itself_after_every_reachable_output_failure() {
    let mut successful = Shown::with_columns(CallFailingWriter::never(), true, 80);
    successful.update(ControllerStage::ConnectingRelay);
    assert!(successful.progress.visible);
    let calls = successful.writer.calls;
    assert!(calls > 1);

    for fail_at in 0..calls {
        let mut progress = Shown::with_columns(CallFailingWriter::at(fail_at), true, 80);
        progress.update(ControllerStage::ConnectingRelay);
        assert!(
            !progress.progress.enabled,
            "write call {fail_at} did not disable progress"
        );
        assert!(!progress.progress.visible);
    }

    let mut unavailable_columns =
        Shown::with_scripted_columns(CallFailingWriter::never(), true, &[None]);
    unavailable_columns.update(ControllerStage::ConnectingRelay);
    assert!(!unavailable_columns.progress.enabled);
    assert_eq!(unavailable_columns.writer.calls, 0);
}

#[test]
fn a_progress_line_is_emptied_and_turns_its_wheel() {
    let mut progress = TerminalProgress::new(true);
    for wheel in ["|", "/", "-", "\\", "|"] {
        assert_eq!(
            progress.render(Some(80), "Working"),
            ProgressOutput::Draw(format!("\x1B[1G\x1B[2K{wheel} Working"))
        );
        progress.drawn(true);
    }
    assert_eq!(
        progress.clear_line(),
        ProgressOutput::Clear("\x1B[1G\x1B[2K".to_owned())
    );
    progress.cleared(true);
    assert_eq!(progress.clear_line(), ProgressOutput::Nothing);
    assert!(progress.enabled);
}

#[test]
fn a_progress_line_leaves_the_last_column_free() {
    for columns in MIN_LINE_CAPACITY + 1..40 {
        let mut progress = TerminalProgress::new(true);
        match progress.render(Some(columns), "Establishing the best available path...") {
            ProgressOutput::Draw(text) => {
                let shown = text.strip_prefix("\x1B[1G\x1B[2K").unwrap();
                assert_eq!(shown.len(), columns - 1);
            }
            other => panic!("nothing was drawn: {other:?}"),
        }
    }
    let mut narrow = TerminalProgress::new(true);
    assert_eq!(
        narrow.render(Some(MIN_LINE_CAPACITY), "Working"),
        ProgressOutput::Nothing
    );
    assert!(!narrow.enabled);
}

#[test]
fn a_heartbeat_comes_every_second_and_silent_progress_stays_silent() {
    assert_eq!(HEARTBEAT_INTERVAL, SECOND);
    let mut silent = NoopProgress;
    silent.update(ControllerStage::Authenticating);
    OperationProgress::<ControllerStage>::clear(&mut silent);
}
