//! The progress of an operation, and the terminal line that shows it.

use crate::host::HostStage;
use crate::network::SECOND;
use vstd::prelude::*;
use vstd::string::{StrSliceExecFns, StringExecFns};

verus! {

/// How often the progress of a long operation is shown again.
pub const HEARTBEAT_INTERVAL: u64 = SECOND;

/// The shortest line, without its last column, that progress is shown on.
pub const MIN_LINE_CAPACITY: usize = 8;

/// Receives type-safe operation milestones without coupling state machines to a UI.
pub trait OperationProgress<Stage> {
    fn update(&mut self, stage: Stage);

    fn clear(&mut self);
}

/// Progress that is not shown.
#[derive(Debug, Clone, Copy)]
pub struct NoopProgress;

impl<Stage> OperationProgress<Stage> for NoopProgress {
    fn update(&mut self, _stage: Stage) {
    }

    fn clear(&mut self) {
    }
}

/// User-visible milestones of a controller.
#[derive(Debug, Clone, Copy, PartialEq, Eq, Structural)]
pub enum ControllerStage {
    ConnectingRelay,
    ResolvingHost,
    EstablishingPath,
    RelayFallback,
    Authenticating,
    StartingTerminal,
}

impl ControllerStage {
    /// What is shown for the milestone.
    pub open spec fn text(self) -> Seq<char> {
        match self {
            ControllerStage::ConnectingRelay => "Connecting to relay..."@,
            ControllerStage::ResolvingHost => "Finding remote host..."@,
            ControllerStage::EstablishingPath => "Establishing the best available path..."@,
            ControllerStage::RelayFallback => "Direct path unavailable; switching to relay..."@,
            ControllerStage::Authenticating => "Authenticating remote host..."@,
            ControllerStage::StartingTerminal => "Starting remote terminal..."@,
        }
    }

    /// What is shown for the milestone.
    pub fn message(self) -> (text: String)
        ensures
            text@ == self.text(),
    {
        let text = match self {
            ControllerStage::ConnectingRelay => "Connecting to relay...",
            ControllerStage::ResolvingHost => "Finding remote host...",
            ControllerStage::EstablishingPath => "Establishing the best available path...",
            ControllerStage::RelayFallback => "Direct path unavailable; switching to relay...",
            ControllerStage::Authenticating => "Authenticating remote host...",
            ControllerStage::StartingTerminal => "Starting remote terminal...",
        };
        text.to_owned()
    }
}

/// What is shown for a milestone of a host.
pub open spec fn host_stage_text(stage: HostStage) -> Seq<char> {
    match stage {
        HostStage::ConnectingRelay => "Connecting to relay..."@,
        HostStage::ReservingRelay => "Reserving relay capacity..."@,
        HostStage::RegisteringHost => "Registering remote host..."@,
        HostStage::WaitingForController => "Waiting for controller..."@,
        HostStage::ReconnectingRelay => "Relay unavailable; reconnecting..."@,
        HostStage::AuthenticatingController => "Authenticating controller..."@,
        HostStage::StartingTerminal => "Starting remote terminal..."@,
        HostStage::TerminalActive => "Remote terminal active."@,
    }
}

/// What is shown for a milestone of a host.
pub fn host_stage_message(stage: HostStage) -> (text: String)
    ensures
        text@ == host_stage_text(stage),
{
    let text = match stage {
        HostStage::ConnectingRelay => "Connecting to relay...",
        HostStage::ReservingRelay => "Reserving relay capacity...",
        HostStage::RegisteringHost => "Registering remote host...",
        HostStage::WaitingForController => "Waiting for controller...",
        HostStage::ReconnectingRelay => "Relay unavailable; reconnecting...",
        HostStage::AuthenticatingController => "Authenticating controller...",
        HostStage::StartingTerminal => "Starting remote terminal...",
        HostStage::TerminalActive => "Remote terminal active.",
    };
    text.to_owned()
}

// ---------------------------------------------------------------------------
// The progress line
// ---------------------------------------------------------------------------

/// `write_ansi` of [`crossterm::cursor::MoveToColumn`]: the code that moves the
/// cursor to the given column, in which columns count from one.
#[verifier::external_body]
fn move_to_column(column: u16) -> (code: String)
    requires
        column < u16::MAX,
    ensures
        code@ == "\x1B["@ + crate::cli::decimal((column + 1) as nat) + "G"@,
{
    let mut code = String::new();
    let _ = crossterm::Command::write_ansi(&crossterm::cursor::MoveToColumn(column), &mut code);
    code
}

/// `write_ansi` of [`crossterm::terminal::Clear`] with the whole of the current
/// line: the code that clears it.
#[verifier::external_body]
fn clear_current_line() -> (code: String)
    ensures
        code@ == "\x1B[2K"@,
{
    let mut code = String::new();
    let line = crossterm::terminal::ClearType::CurrentLine;
    let _ = crossterm::Command::write_ansi(&crossterm::terminal::Clear(line), &mut code);
    code
}

/// The codes that empty the current line and leave the cursor at its beginning.
pub open spec fn emptied_line() -> Seq<char> {
    "\x1B[1G"@ + "\x1B[2K"@
}

/// The sign of a turning wheel.
pub open spec fn wheel(frame: usize) -> char {
    let turn = frame % 4;
    if turn == 0 {
        '|'
    } else if turn == 1 {
        '/'
    } else if turn == 2 {
        '-'
    } else {
        '\\'
    }
}

/// The progress line with a message, cut to a line of so many columns.
pub open spec fn progress_line(frame: usize, message: Seq<char>, capacity: int) -> Seq<char> {
    emptied_line() + seq![wheel(frame), ' '] + message.take(
        if message.len() < capacity - 2 {
            message.len() as int
        } else {
            capacity - 2
        },
    )
}

/// What is written to the terminal.
#[derive(Debug, PartialEq, Eq)]
pub enum ProgressOutput {
    Nothing,
    /// Leave the line; a failure does not matter.
    LineBreak,
    /// Empty the line, with this text, and flush.
    Clear(String),
    /// Show the progress, with this text, and flush.
    Draw(String),
}

/// A progress line of a terminal. It gives up for good when the terminal's width
/// cannot be had, when the line is too short or when a write fails.
#[derive(Debug, Clone, Copy, PartialEq, Eq, Structural)]
pub struct TerminalProgress {
    pub enabled: bool,
    /// The line holds progress.
    pub visible: bool,
    pub frame: usize,
}

fn empty_line() -> (codes: String)
    ensures
        codes@ == emptied_line(),
{
    let start = move_to_column(0);
    proof {
        reveal_strlit("\x1B[");
        reveal_strlit("G");
        reveal_strlit("\x1B[1G");
        assert(start@ =~= "\x1B[1G"@);
    }
    start.concat(clear_current_line().as_str())
}

fn wheel_text(frame: usize) -> (text: &'static str)
    ensures
        text@ == seq![wheel(frame), ' '],
{
    proof {
        reveal_strlit("| ");
        reveal_strlit("/ ");
        reveal_strlit("- ");
        reveal_strlit("\\ ");
    }
    let turn: usize = frame % 4;
    let text = if turn == 0 {
        "| "
    } else if turn == 1 {
        "/ "
    } else if turn == 2 {
        "- "
    } else {
        "\\ "
    };
    assert(text@ =~= seq![wheel(frame), ' ']);
    text
}

impl TerminalProgress {
    #[must_use]
    pub fn new(enabled: bool) -> (progress: Self)
        ensures
            progress == (TerminalProgress { enabled, visible: false, frame: 0 }),
    {
        TerminalProgress { enabled, visible: false, frame: 0 }
    }

    /// Shows a message on a terminal of so many columns; `columns` is missing when
    /// they could not be had. What is drawn or cleared is reported back by
    /// [`TerminalProgress::drawn`] or [`TerminalProgress::cleared`].
    pub fn render(&mut self, columns: Option<usize>, message: &str) -> (output: ProgressOutput)
        ensures
            !old(self).enabled ==> output is Nothing && *final(self) == *old(self),
            old(self).enabled ==> match columns {
                None => *final(self) == (TerminalProgress {
                    enabled: false,
                    visible: false,
                    ..*old(self)
                }) && if old(self).visible {
                    output is LineBreak
                } else {
                    output is Nothing
                },
                Some(columns) => if columns <= MIN_LINE_CAPACITY {
                    *final(self) == (TerminalProgress {
                        enabled: false,
                        visible: false,
                        ..*old(self)
                    }) && if old(self).visible {
                        output matches ProgressOutput::Clear(text) && text@ == emptied_line()
                    } else {
                        output is Nothing
                    }
                } else {
                    *final(self) == *old(self) && output is Draw && output->Draw_0@
                        == progress_line(old(self).frame, message@, columns - 1)
                },
            },
    {
        if !self.enabled {
            return ProgressOutput::Nothing;
        }
        let columns: usize = match columns {
            Some(columns) => columns,
            None => {
                let visible = self.visible;
                self.enabled = false;
                self.visible = false;
                return if visible {
                    ProgressOutput::LineBreak
                } else {
                    ProgressOutput::Nothing
                };
            },
        };
        if columns <= MIN_LINE_CAPACITY {
            let visible = self.visible;
            self.enabled = false;
            self.visible = false;
            return if visible {
                ProgressOutput::Clear(empty_line())
            } else {
                ProgressOutput::Nothing
            };
        }
        let capacity: usize = columns - 3;
        let len: usize = message.unicode_len();
        let shown: usize = if len < capacity {
            len
        } else {
            capacity
        };
        let text = empty_line().concat(wheel_text(self.frame)).concat(
            message.substring_char(0, shown),
        );
        assert(message@.subrange(0, shown as int) =~= message@.take(shown as int));
        ProgressOutput::Draw(text)
    }

    /// Whether the progress could be drawn.
    pub fn drawn(&mut self, written: bool)
        ensures
            *final(self) == if written {
                TerminalProgress {
                    enabled: old(self).enabled,
                    visible: true,
                    frame: next_frame(old(self).frame),
                }
            } else {
                TerminalProgress { enabled: false, visible: false, frame: old(self).frame }
            },
    {
        if written {
            self.visible = true;
            self.frame = self.frame.wrapping_add(1);
        } else {
            self.enabled = false;
            self.visible = false;
        }
    }

    /// Empties the line if it holds progress.
    pub fn clear_line(&mut self) -> (output: ProgressOutput)
        ensures
            *final(self) == *old(self),
            if old(self).enabled && old(self).visible {
                output matches ProgressOutput::Clear(text) && text@ == emptied_line()
            } else {
                output is Nothing
            },
    {
        if !self.enabled || !self.visible {
            return ProgressOutput::Nothing;
        }
        ProgressOutput::Clear(empty_line())
    }

    /// Whether the line could be emptied.
    pub fn cleared(&mut self, written: bool)
        ensures
            *final(self) == (TerminalProgress {
                enabled: old(self).enabled && written,
                visible: false,
                frame: old(self).frame,
            }),
    {
        self.visible = false;
        if !written {
            self.enabled = false;
        }
    }
}

/// The frame after another one.
pub open spec fn next_frame(frame: usize) -> usize {
    if frame == usize::MAX {
        0
    } else {
        (frame + 1) as usize
    }
}

/// The lower-case form of a letter of the alphabet; any other sign stays.
pub open spec fn lower(sign: char) -> char {
    if 'A' <= sign <= 'Z' {
        (sign as u32 + 32) as char
    } else {
        sign
    }
}

fn is_letter(sign: char, small: char, capital: char) -> (same: bool)
    requires
        'a' <= small <= 'z',
        capital as u32 + 32 == small as u32,
    ensures
        same == (lower(sign) == small),
{
    sign == small || sign == capital
}

/// The kind of a terminal is that of a dumb one, however it is spelled.
pub open spec fn dumb(term: Seq<char>) -> bool {
    term.len() == 4 && lower(term[0]) == 'd' && lower(term[1]) == 'u' && lower(term[2]) == 'm'
        && lower(term[3]) == 'b'
}

/// Whether a terminal of this kind can show progress: every kind but a dumb one,
/// however it is spelled. The kind is missing when it is not set or not readable.
pub fn terminal_supports_progress(term: Option<&str>) -> (supported: bool)
    ensures
        supported == match term {
            None => true,
            Some(term) => !dumb(term@),
        },
{
    match term {
        None => true,
        Some(term) => !(term.unicode_len() == 4 && is_letter(term.get_char(0), 'd', 'D')
            && is_letter(term.get_char(1), 'u', 'U') && is_letter(term.get_char(2), 'm', 'M')
            && is_letter(term.get_char(3), 'b', 'B')),
    }
}

// ---------------------------------------------------------------------------
// Laws
// ---------------------------------------------------------------------------

/// A progress line never fills the last column of the terminal, so that the
/// terminal does not wrap it.
pub proof fn law_a_progress_line_fits(frame: usize, message: Seq<char>, columns: usize)
    requires
        columns > MIN_LINE_CAPACITY,
    ensures
        progress_line(frame, message, columns - 1).len() - emptied_line().len() < columns,
{
}

/// A message that fits is shown whole, and one that does not is cut.
pub proof fn law_a_short_message_is_shown_whole(frame: usize, message: Seq<char>, columns: usize)
    requires
        columns > MIN_LINE_CAPACITY,
        message.len() + 3 <= columns,
    ensures
        progress_line(frame, message, columns - 1) == emptied_line() + seq![wheel(frame), ' ']
            + message,
{
    assert(message.take(message.len() as int) =~= message);
}

/// A message that does not fit is cut where the line ends, and what is shown is its
/// beginning.
pub proof fn law_a_long_message_is_cut_at_the_end(
    frame: usize,
    message: Seq<char>,
    columns: usize,
)
    requires
        columns > MIN_LINE_CAPACITY,
        message.len() + 3 > columns,
    ensures
        progress_line(frame, message, columns - 1) == emptied_line() + seq![wheel(frame), ' ']
            + message.take(columns - 3),
{
}

/// The wheel turns: four frames show four different signs, and then they come again.
pub proof fn law_the_wheel_turns(frame: usize)
    requires
        frame < usize::MAX - 4,
    ensures
        next_frame(frame) == frame + 1,
        next_frame(usize::MAX) == 0,
        wheel((frame + 4) as usize) == wheel(frame),
        wheel((frame + 1) as usize) != wheel(frame),
        wheel((frame + 2) as usize) != wheel(frame),
        wheel((frame + 3) as usize) != wheel(frame),
        wheel(0) == '|' && wheel(1) == '/' && wheel(2) == '-' && wheel(3) == '\\',
{
}

/// How the kind of a terminal is spelled does not matter: two spellings of the same word
/// are judged alike, and the word itself is the only one that is dumb.
pub proof fn law_spelling_does_not_matter(a: Seq<char>, b: Seq<char>)
    requires
        a.len() == b.len(),
        forall|i: int| 0 <= i < a.len() ==> lower(#[trigger] a[i]) == lower(b[i]),
    ensures
        dumb(a) == dumb(b),
        a == seq!['d', 'u', 'm', 'b'] ==> dumb(a),
        a == seq!['D', 'U', 'M', 'B'] ==> dumb(a),
        dumb(a) && (forall|i: int| 0 <= i < a.len() ==> 'a' <= #[trigger] a[i] <= 'z') ==> a
            == seq!['d', 'u', 'm', 'b'],
{
    if a.len() == 4 {
        assert(lower(a[0]) == lower(b[0]));
        assert(lower(a[1]) == lower(b[1]));
        assert(lower(a[2]) == lower(b[2]));
        assert(lower(a[3]) == lower(b[3]));
        if dumb(a) && (forall|i: int| 0 <= i < a.len() ==> 'a' <= #[trigger] a[i] <= 'z') {
            assert(a =~= seq!['d', 'u', 'm', 'b']);
        }
    }
}

/// Exactly the capital letters of the alphabet have another lower-case form, the letter
/// that stands 32 places behind them.
pub proof fn law_lower_case_of_the_alphabet(sign: char)
    ensures
        'A' <= sign <= 'Z' ==> lower(sign) as u32 == sign as u32 + 32,
        !('A' <= sign <= 'Z') ==> lower(sign) == sign,
{
}

} // verus!
