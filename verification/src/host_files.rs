//! The file substreams of an active session: how the first frame of one is read,
//! what is done with it, and how many are served at a time.

use crate::failure::{kind_of_io, IoFailure};
use vstd::prelude::*;

verus! {

/// The hard cap on file substreams waiting for the single active slot.
pub const FILE_SUBSTREAM_QUEUE: usize = 1;

/// Whether a file substream is served as the single active transfer or as a busy
/// rejection.
#[derive(Debug, Clone, Copy, PartialEq, Eq, Structural)]
pub enum FileSubstreamRole {
    /// The single active slot: the opening frame dispatches a real upload or
    /// download.
    Active,
    /// Another transfer is already running: the opening frame is answered with a
    /// busy error and the substream is closed.
    Busy,
}

/// The result of the first-frame read of a file substream.
#[derive(Debug, PartialEq, Eq)]
pub enum FileOpenFrame {
    /// The stream ended at a message boundary before any byte: a capability probe.
    Probe,
    /// A complete opening frame of an upload.
    Upload { destination: String, file_name: String, declared_size: u64 },
    /// A complete opening frame of a download.
    Download { source: String },
}

/// Why the first frame of a file substream could not be read.
#[derive(Debug, Clone, Copy, PartialEq, Eq, Structural)]
pub enum FileOpenError {
    /// The bounded control deadline expired.
    Timeout,
    /// The underlying substream failed.
    Io,
    /// Unknown tag, invalid length, truncated frame or a frame that cannot open a
    /// transfer: a protocol violation.
    Protocol,
}

// ---------------------------------------------------------------------------
// Reading a frame
// ---------------------------------------------------------------------------

/// The meaning of a failed read of the opening frame.
pub open spec fn open_failure(failure: IoFailure) -> FileOpenError {
    if failure == IoFailure::UnexpectedEof {
        FileOpenError::Protocol
    } else {
        FileOpenError::Io
    }
}

/// The meaning of a failed read of the opening frame: a truncated frame is a
/// protocol violation, everything else stays a failure of the stream.
pub fn classify_file_open_failure(failure: IoFailure) -> (error: FileOpenError)
    ensures
        error == open_failure(failure),
{
    match failure {
        IoFailure::UnexpectedEof => FileOpenError::Protocol,
        _ => FileOpenError::Io,
    }
}

/// The meaning of an I/O error in the opening frame, by its kind.
pub fn classify_file_open_io(error: std::io::Error) -> (open: FileOpenError)
    ensures
        open == open_failure(crate::failure::io_kind(error)),
{
    classify_file_open_failure(kind_of_io(&error))
}

/// What a read came to for a part of a frame.
#[derive(Debug, Clone, Copy, PartialEq, Eq, Structural)]
pub enum FillVerdict {
    /// So many bytes are still wanted.
    More(usize),
    /// The part is complete.
    Complete,
    /// The stream ended before any byte of the part: at a message boundary.
    Boundary,
    /// The stream ended inside the part.
    Truncated,
}

/// How much of a part of a frame has been read.
#[derive(Debug, Clone, Copy, PartialEq, Eq, Structural)]
pub struct FrameFill {
    pub filled: usize,
    pub needed: usize,
}

impl FrameFill {
    /// What is known before the next read.
    pub open spec fn standing(self) -> FillVerdict {
        if self.filled < self.needed {
            FillVerdict::More((self.needed - self.filled) as usize)
        } else {
            FillVerdict::Complete
        }
    }

    /// Begins a part of so many bytes. A part without bytes is complete.
    pub fn new(needed: usize) -> (begun: (Self, FillVerdict))
        ensures
            begun.0 == (FrameFill { filled: 0, needed }),
            begun.1 == begun.0.standing(),
    {
        let verdict = if needed > 0 {
            FillVerdict::More(needed)
        } else {
            FillVerdict::Complete
        };
        (FrameFill { filled: 0, needed }, verdict)
    }

    /// Takes a read of at most the wanted bytes into account; none were read at the
    /// end of the stream.
    pub fn read(&mut self, read: usize) -> (verdict: FillVerdict)
        requires
            old(self).filled < old(self).needed,
            old(self).filled + read <= old(self).needed,
        ensures
            final(self).needed == old(self).needed,
            final(self).filled == old(self).filled + read,
            verdict == if read > 0 {
                final(self).standing()
            } else if old(self).filled == 0 {
                FillVerdict::Boundary
            } else {
                FillVerdict::Truncated
            },
    {
        if read == 0 {
            return if self.filled == 0 {
                FillVerdict::Boundary
            } else {
                FillVerdict::Truncated
            };
        }
        self.filled = self.filled + read;
        if self.filled < self.needed {
            FillVerdict::More(self.needed - self.filled)
        } else {
            FillVerdict::Complete
        }
    }
}

/// What the header of a frame announces.
#[derive(Debug, Clone, Copy, PartialEq, Eq, Structural)]
pub struct FileHeader {
    /// Whether it is the tag of file contents.
    pub data: bool,
    pub payload_len: usize,
    /// Whether a frame with the tag may have a payload of that length.
    pub valid: bool,
}

/// The message of a complete frame.
#[derive(Debug, PartialEq, Eq)]
pub enum FileMessage {
    UploadOpen { destination: String, file_name: String, declared_size: u64 },
    DownloadOpen { source: String },
    /// Any other message.
    Other,
}

/// What the read of an opening frame waits for.
#[derive(Debug, Clone, Copy, PartialEq, Eq, Structural)]
pub enum OpenPhase {
    /// The bytes of the header.
    Header(FrameFill),
    /// The header to be decoded.
    DecodingHeader,
    /// The bytes of the payload.
    Payload(FrameFill),
    /// The frame to be decoded.
    DecodingFrame,
    Finished,
}

/// What happened to the read of an opening frame.
#[derive(Debug)]
pub enum OpenEvent {
    /// So many bytes were read; none at the end of the stream.
    Read(Result<usize, IoFailure>),
    /// The header, or none when it is no header.
    Header(Option<FileHeader>),
    /// The message, or none when the frame is no message.
    Message(Option<FileMessage>),
    Deadline,
}

/// What the read of an opening frame wants done.
#[derive(Debug, PartialEq, Eq)]
pub enum OpenAction {
    /// Read at most so many bytes.
    Read(usize),
    DecodeHeader,
    DecodeFrame,
    Finish(Result<FileOpenFrame, FileOpenError>),
}

/// The event is one that can happen in the phase.
pub open spec fn open_awaits(phase: OpenPhase, event: OpenEvent) -> bool {
    match event {
        OpenEvent::Deadline => !(phase is Finished),
        OpenEvent::Read(Err(_)) => phase is Header || phase is Payload,
        OpenEvent::Read(Ok(read)) => match phase {
            OpenPhase::Header(fill) => fill.filled < fill.needed && fill.filled + read
                <= fill.needed,
            OpenPhase::Payload(fill) => fill.filled < fill.needed && fill.filled + read
                <= fill.needed,
            _ => false,
        },
        OpenEvent::Header(_) => phase is DecodingHeader,
        OpenEvent::Message(_) => phase is DecodingFrame,
    }
}

/// The read has come to an end.
pub open spec fn open_end(result: Result<FileOpenFrame, FileOpenError>) -> (OpenPhase, OpenAction) {
    (OpenPhase::Finished, OpenAction::Finish(result))
}

/// The fill after a read.
pub open spec fn filled(fill: FrameFill, read: usize) -> FrameFill {
    FrameFill { filled: (fill.filled + read) as usize, ..fill }
}

/// What follows an event of the read of an opening frame: an end of the stream
/// before any byte is a probe, one inside the frame a violation, and only a frame
/// that opens an upload or a download is accepted.
pub open spec fn open_after(phase: OpenPhase, event: OpenEvent) -> (OpenPhase, OpenAction) {
    match event {
        OpenEvent::Deadline => open_end(Err(FileOpenError::Timeout)),
        OpenEvent::Read(Err(failure)) => open_end(Err(open_failure(failure))),
        OpenEvent::Read(Ok(read)) => match phase {
            OpenPhase::Header(fill) => if read == 0 && fill.filled == 0 {
                open_end(Ok(FileOpenFrame::Probe))
            } else if read == 0 {
                open_end(Err(FileOpenError::Protocol))
            } else {
                match filled(fill, read).standing() {
                    FillVerdict::More(more) => (
                        OpenPhase::Header(filled(fill, read)),
                        OpenAction::Read(more),
                    ),
                    _ => (OpenPhase::DecodingHeader, OpenAction::DecodeHeader),
                }
            },
            OpenPhase::Payload(fill) => if read == 0 {
                open_end(Err(FileOpenError::Protocol))
            } else {
                match filled(fill, read).standing() {
                    FillVerdict::More(more) => (
                        OpenPhase::Payload(filled(fill, read)),
                        OpenAction::Read(more),
                    ),
                    _ => (OpenPhase::DecodingFrame, OpenAction::DecodeFrame),
                }
            },
            _ => open_end(Err(FileOpenError::Protocol)),
        },
        OpenEvent::Header(header) => match header {
            Some(header) => if header.data || !header.valid {
                open_end(Err(FileOpenError::Protocol))
            } else if header.payload_len == 0 {
                (OpenPhase::DecodingFrame, OpenAction::DecodeFrame)
            } else {
                (
                    OpenPhase::Payload(FrameFill { filled: 0, needed: header.payload_len }),
                    OpenAction::Read(header.payload_len),
                )
            },
            None => open_end(Err(FileOpenError::Protocol)),
        },
        OpenEvent::Message(message) => open_end(
            match message {
                Some(FileMessage::UploadOpen { destination, file_name, declared_size }) => Ok(
                    FileOpenFrame::Upload { destination, file_name, declared_size },
                ),
                Some(FileMessage::DownloadOpen { source }) => Ok(
                    FileOpenFrame::Download { source },
                ),
                _ => Err(FileOpenError::Protocol),
            },
        ),
    }
}

/// The read of the first frame of a file substream.
pub struct FileOpenRead {
    phase: OpenPhase,
}

impl FileOpenRead {
    /// What the read waits for.
    pub closed spec fn at(self) -> OpenPhase {
        self.phase
    }

    /// Begins with the header, which has so many bytes.
    pub fn new(header_len: usize) -> (begun: (Self, OpenAction))
        requires
            header_len > 0,
        ensures
            begun.0.at() == OpenPhase::Header(FrameFill { filled: 0, needed: header_len }),
            begun.1 == OpenAction::Read(header_len),
    {
        let (fill, _) = FrameFill::new(header_len);
        (FileOpenRead { phase: OpenPhase::Header(fill) }, OpenAction::Read(header_len))
    }

    /// Takes an event into account and says what to do next.
    pub fn advance(&mut self, event: OpenEvent) -> (action: OpenAction)
        requires
            open_awaits(old(self).at(), event),
        ensures
            (final(self).at(), action) == open_after(old(self).at(), event),
    {
        let (phase, action) = read_file_open_frame(self.phase, event);
        self.phase = phase;
        action
    }
}

fn end_open(result: Result<FileOpenFrame, FileOpenError>) -> (next: (OpenPhase, OpenAction))
    ensures
        next == open_end(result),
{
    (OpenPhase::Finished, OpenAction::Finish(result))
}

fn read_file_open_frame(phase: OpenPhase, event: OpenEvent) -> (next: (OpenPhase, OpenAction))
    requires
        open_awaits(phase, event),
    ensures
        next == open_after(phase, event),
{
    match event {
        OpenEvent::Deadline => end_open(Err(FileOpenError::Timeout)),
        OpenEvent::Read(Err(failure)) => end_open(Err(classify_file_open_failure(failure))),
        OpenEvent::Read(Ok(read)) => match phase {
            OpenPhase::Header(mut fill) => match fill.read(read) {
                FillVerdict::Boundary => end_open(Ok(FileOpenFrame::Probe)),
                FillVerdict::Truncated => end_open(Err(FileOpenError::Protocol)),
                FillVerdict::More(more) => (OpenPhase::Header(fill), OpenAction::Read(more)),
                FillVerdict::Complete => (OpenPhase::DecodingHeader, OpenAction::DecodeHeader),
            },
            OpenPhase::Payload(mut fill) => match fill.read(read) {
                FillVerdict::Boundary | FillVerdict::Truncated => end_open(
                    Err(FileOpenError::Protocol),
                ),
                FillVerdict::More(more) => (OpenPhase::Payload(fill), OpenAction::Read(more)),
                FillVerdict::Complete => (OpenPhase::DecodingFrame, OpenAction::DecodeFrame),
            },
            _ => end_open(Err(FileOpenError::Protocol)),
        },
        OpenEvent::Header(Some(header)) => {
            if header.data || !header.valid {
                end_open(Err(FileOpenError::Protocol))
            } else {
                let (fill, verdict) = FrameFill::new(header.payload_len);
                match verdict {
                    FillVerdict::More(more) => (OpenPhase::Payload(fill), OpenAction::Read(more)),
                    _ => (OpenPhase::DecodingFrame, OpenAction::DecodeFrame),
                }
            }
        },
        OpenEvent::Header(None) => end_open(Err(FileOpenError::Protocol)),
        OpenEvent::Message(message) => match message {
            Some(FileMessage::UploadOpen { destination, file_name, declared_size }) => end_open(
                Ok(FileOpenFrame::Upload { destination, file_name, declared_size }),
            ),
            Some(FileMessage::DownloadOpen { source }) => end_open(
                Ok(FileOpenFrame::Download { source }),
            ),
            _ => end_open(Err(FileOpenError::Protocol)),
        },
    }
}

// ---------------------------------------------------------------------------
// Serving
// ---------------------------------------------------------------------------

/// What is done with a file substream.
#[derive(Debug, PartialEq, Eq)]
pub enum ServeAction {
    /// Close it without any transfer state, error output or log entry.
    Close,
    Upload { destination: String, file_name: String, declared_size: u64 },
    Download { source: String },
    /// Answer with a busy error and close it.
    ReplyBusy,
}

/// What is done with a file substream, by its first frame, its role and whether file
/// requests can be resolved.
pub open spec fn served(
    opened: Result<FileOpenFrame, FileOpenError>,
    role: FileSubstreamRole,
    base: bool,
) -> ServeAction {
    match opened {
        Err(_) | Ok(FileOpenFrame::Probe) => ServeAction::Close,
        Ok(_) if role == FileSubstreamRole::Busy => ServeAction::ReplyBusy,
        Ok(_) if !base => ServeAction::Close,
        Ok(FileOpenFrame::Upload { destination, file_name, declared_size }) => {
            ServeAction::Upload { destination, file_name, declared_size }
        },
        Ok(FileOpenFrame::Download { source }) => ServeAction::Download { source },
    }
}

/// What is done with a file substream whose first frame was read, where `base`
/// says whether file requests can be resolved.
pub fn serve_one_file_substream(
    opened: Result<FileOpenFrame, FileOpenError>,
    role: FileSubstreamRole,
    base: bool,
) -> (action: ServeAction)
    ensures
        action == served(opened, role, base),
{
    match opened {
        Ok(FileOpenFrame::Probe) | Err(_) => ServeAction::Close,
        Ok(FileOpenFrame::Upload { destination, file_name, declared_size }) => {
            if role == FileSubstreamRole::Busy {
                ServeAction::ReplyBusy
            } else if !base {
                ServeAction::Close
            } else {
                ServeAction::Upload { destination, file_name, declared_size }
            }
        },
        Ok(FileOpenFrame::Download { source }) => {
            if role == FileSubstreamRole::Busy {
                ServeAction::ReplyBusy
            } else if !base {
                ServeAction::Close
            } else {
                ServeAction::Download { source }
            }
        },
    }
}

/// The work that a session has on file substreams.
#[derive(Debug, Clone, Copy, PartialEq, Eq, Structural)]
pub struct FileSlots {
    /// A transfer is under way.
    pub active: bool,
    /// A busy reply is under way.
    pub busy: bool,
}

/// What happened to the coordinator of file substreams.
#[derive(Debug, Clone, Copy, PartialEq, Eq, Structural)]
pub enum FileEvent {
    /// A substream came out of the queue.
    Substream,
    /// The queue is closed and empty.
    QueueClosed,
    ActiveEnded,
    BusyEnded,
}

/// What the coordinator wants done.
#[derive(Debug, Clone, Copy, PartialEq, Eq, Structural)]
pub enum FileAction {
    Wait,
    Serve(FileSubstreamRole),
    /// Drop the substream.
    Drop,
    /// The session is over and nothing is under way.
    End,
}

/// What follows an event of the coordinator: one transfer and one busy reply at a
/// time, and no transfer while anything is under way.
pub open spec fn coordinated(slots: FileSlots, event: FileEvent) -> (FileSlots, FileAction) {
    match event {
        FileEvent::Substream => if !slots.active && !slots.busy {
            (
                FileSlots { active: true, ..slots },
                FileAction::Serve(FileSubstreamRole::Active),
            )
        } else if !slots.busy {
            (FileSlots { busy: true, ..slots }, FileAction::Serve(FileSubstreamRole::Busy))
        } else {
            (slots, FileAction::Drop)
        },
        FileEvent::QueueClosed => if !slots.active && !slots.busy {
            (slots, FileAction::End)
        } else {
            (slots, FileAction::Wait)
        },
        FileEvent::ActiveEnded => (FileSlots { active: false, ..slots }, FileAction::Wait),
        FileEvent::BusyEnded => (FileSlots { busy: false, ..slots }, FileAction::Wait),
    }
}

/// One step of the coordinator of file substreams.
pub fn file_substream_coordinator(slots: FileSlots, event: FileEvent) -> (next: (
    FileSlots,
    FileAction,
))
    requires
        event == FileEvent::ActiveEnded ==> slots.active,
        event == FileEvent::BusyEnded ==> slots.busy,
    ensures
        next == coordinated(slots, event),
{
    match event {
        FileEvent::Substream => {
            if !slots.active && !slots.busy {
                (
                    FileSlots { active: true, busy: false },
                    FileAction::Serve(FileSubstreamRole::Active),
                )
            } else if !slots.busy {
                (
                    FileSlots { active: slots.active, busy: true },
                    FileAction::Serve(FileSubstreamRole::Busy),
                )
            } else {
                (slots, FileAction::Drop)
            }
        },
        FileEvent::QueueClosed => {
            if !slots.active && !slots.busy {
                (slots, FileAction::End)
            } else {
                (slots, FileAction::Wait)
            }
        },
        FileEvent::ActiveEnded => (
            FileSlots { active: false, busy: slots.busy },
            FileAction::Wait,
        ),
        FileEvent::BusyEnded => (FileSlots { active: slots.active, busy: false }, FileAction::Wait),
    }
}

// ---------------------------------------------------------------------------
// Laws
// ---------------------------------------------------------------------------

/// The end of a stream opens nothing: before any byte it is a probe, and later in
/// the header or anywhere in the payload it is a protocol violation.
pub proof fn law_an_end_of_stream_opens_nothing(fill: FrameFill)
    ensures
        open_after(OpenPhase::Header(fill), OpenEvent::Read(Ok(0))) == open_end(
            if fill.filled == 0 {
                Ok(FileOpenFrame::Probe)
            } else {
                Err(FileOpenError::Protocol)
            },
        ),
        open_after(OpenPhase::Payload(fill), OpenEvent::Read(Ok(0))) == open_end(
            Err(FileOpenError::Protocol),
        ),
{
}

/// An opening frame is accepted only once it was read to its end and decoded, and
/// a probe only at the very beginning.
pub proof fn law_only_a_whole_frame_opens_a_transfer(phase: OpenPhase, event: OpenEvent)
    requires
        open_awaits(phase, event),
        ({
            let action = open_after(phase, event).1;
            action is Finish && action->Finish_0 is Ok
        }),
    ensures
        open_after(phase, event).1->Finish_0->Ok_0 is Probe ==> phase is Header
            && phase->Header_0.filled == 0,
        !(open_after(phase, event).1->Finish_0->Ok_0 is Probe) ==> phase is DecodingFrame,
{
}

/// A transfer begins only when nothing is under way, a second operation meanwhile
/// is answered as busy, and any further one is dropped.
pub proof fn law_one_transfer_at_a_time(slots: FileSlots)
    ensures
        coordinated(slots, FileEvent::Substream).1 == FileAction::Serve(FileSubstreamRole::Active)
            <==> !slots.active && !slots.busy,
        slots.active && !slots.busy ==> coordinated(slots, FileEvent::Substream).1
            == FileAction::Serve(FileSubstreamRole::Busy),
        slots.busy ==> coordinated(slots, FileEvent::Substream) == (slots, FileAction::Drop),
        coordinated(slots, FileEvent::QueueClosed).1 == FileAction::End <==> !slots.active
            && !slots.busy,
{
}

/// A stream that ended inside the frame broke the protocol; every other failure is one
/// of the stream.
pub proof fn law_only_a_truncated_frame_breaks_the_protocol(failure: IoFailure)
    ensures
        open_failure(failure) == FileOpenError::Protocol <==> failure == IoFailure::UnexpectedEof,
        open_failure(failure) == FileOpenError::Io <==> failure != IoFailure::UnexpectedEof,
{
}

/// Header and payload are read until they are whole, asking for exactly what is missing,
/// and are then decoded.
pub proof fn law_a_frame_is_read_until_it_is_whole(fill: FrameFill, read: usize)
    requires
        0 < read,
        fill.filled + read <= fill.needed,
    ensures
        ({
            let missing = fill.needed - fill.filled - read;
            let next = FrameFill { filled: (fill.filled + read) as usize, needed: fill.needed };
            let event = OpenEvent::Read(Ok(read));
            &&& missing > 0 ==> open_after(OpenPhase::Header(fill), event) == (
                OpenPhase::Header(next),
                OpenAction::Read(missing as usize),
            )
            &&& missing == 0 ==> open_after(OpenPhase::Header(fill), event) == (
                OpenPhase::DecodingHeader,
                OpenAction::DecodeHeader,
            )
            &&& missing > 0 ==> open_after(OpenPhase::Payload(fill), event) == (
                OpenPhase::Payload(next),
                OpenAction::Read(missing as usize),
            )
            &&& missing == 0 ==> open_after(OpenPhase::Payload(fill), event) == (
                OpenPhase::DecodingFrame,
                OpenAction::DecodeFrame,
            )
        }),
        fill.standing() == FillVerdict::More((fill.needed - fill.filled) as usize),
        (FrameFill { filled: fill.needed, needed: fill.needed }).standing()
            == FillVerdict::Complete,
{
}

/// A header that may open a transfer is followed by exactly the payload that it
/// announces; one of file contents, of an impossible length or that is none at all is a
/// violation.
pub proof fn law_the_header_announces_the_payload(header: FileHeader)
    ensures
        open_after(OpenPhase::DecodingHeader, OpenEvent::Header(Some(header))) == if header.valid
            && !header.data && header.payload_len > 0 {
            (
                OpenPhase::Payload(FrameFill { filled: 0, needed: header.payload_len }),
                OpenAction::Read(header.payload_len),
            )
        } else if header.valid && !header.data {
            (OpenPhase::DecodingFrame, OpenAction::DecodeFrame)
        } else {
            (OpenPhase::Finished, OpenAction::Finish(Err(FileOpenError::Protocol)))
        },
        open_after(OpenPhase::DecodingHeader, OpenEvent::Header(None)) == (
            OpenPhase::Finished,
            OpenAction::Finish(Err(FileOpenError::Protocol)),
        ),
{
}

/// A frame that opens an upload or a download is handed out as it was sent, and any other
/// message is a violation; the deadline and a failed read end the read in every phase.
pub proof fn law_an_opening_frame_is_handed_out_as_it_was_sent(
    destination: String,
    file_name: String,
    declared_size: u64,
    source: String,
    phase: OpenPhase,
    failure: IoFailure,
)
    ensures
        open_after(
            OpenPhase::DecodingFrame,
            OpenEvent::Message(
                Some(FileMessage::UploadOpen { destination, file_name, declared_size }),
            ),
        ) == (
            OpenPhase::Finished,
            OpenAction::Finish(
                Ok(FileOpenFrame::Upload { destination, file_name, declared_size }),
            ),
        ),
        open_after(
            OpenPhase::DecodingFrame,
            OpenEvent::Message(Some(FileMessage::DownloadOpen { source })),
        ) == (
            OpenPhase::Finished,
            OpenAction::Finish(Ok(FileOpenFrame::Download { source })),
        ),
        open_after(OpenPhase::DecodingFrame, OpenEvent::Message(Some(FileMessage::Other))) == (
            OpenPhase::Finished,
            OpenAction::Finish(Err(FileOpenError::Protocol)),
        ),
        open_after(OpenPhase::DecodingFrame, OpenEvent::Message(None)) == (
            OpenPhase::Finished,
            OpenAction::Finish(Err(FileOpenError::Protocol)),
        ),
        open_after(phase, OpenEvent::Deadline) == (
            OpenPhase::Finished,
            OpenAction::Finish(Err(FileOpenError::Timeout)),
        ),
        open_after(phase, OpenEvent::Read(Err(failure))) == (
            OpenPhase::Finished,
            OpenAction::Finish(Err(open_failure(failure))),
        ),
{
}

/// The slots follow what is under way: a substream that is served takes the slot of its
/// role, an end frees the slot that it ends, and nothing else changes a slot.
pub proof fn law_slots_follow_what_is_under_way(slots: FileSlots, event: FileEvent)
    ensures
        ({
            let (next, action) = coordinated(slots, event);
            &&& next.active <==> (slots.active && event != FileEvent::ActiveEnded) || action
                == FileAction::Serve(FileSubstreamRole::Active)
            &&& next.busy <==> (slots.busy && event != FileEvent::BusyEnded) || action
                == FileAction::Serve(FileSubstreamRole::Busy)
            &&& action is Serve || action is Drop <==> event == FileEvent::Substream
            &&& event == FileEvent::ActiveEnded || event == FileEvent::BusyEnded ==> action
                == FileAction::Wait
            &&& event == FileEvent::QueueClosed && (slots.active || slots.busy) ==> action
                == FileAction::Wait
        }),
{
}

/// A probe and a frame that could not be read are closed without a word. An opened
/// transfer is answered as busy in the busy role, and in the active one is carried out as
/// it was asked for, wherever requests can be resolved.
pub proof fn law_an_opened_transfer_is_served(
    error: FileOpenError,
    destination: String,
    file_name: String,
    declared_size: u64,
    source: String,
    role: FileSubstreamRole,
    base: bool,
)
    ensures
        served(Err(error), role, base) == ServeAction::Close,
        served(Ok(FileOpenFrame::Probe), role, base) == ServeAction::Close,
        ({
            let upload = FileOpenFrame::Upload { destination, file_name, declared_size };
            let download = FileOpenFrame::Download { source };
            let active = FileSubstreamRole::Active;
            let busy = FileSubstreamRole::Busy;
            &&& served(Ok(upload), busy, base) == ServeAction::ReplyBusy
            &&& served(Ok(download), busy, base) == ServeAction::ReplyBusy
            &&& served(Ok(upload), active, true) == (ServeAction::Upload {
                destination,
                file_name,
                declared_size,
            })
            &&& served(Ok(download), active, true) == (ServeAction::Download { source })
            &&& served(Ok(upload), active, false) == ServeAction::Close
            &&& served(Ok(download), active, false) == ServeAction::Close
        }),
{
}

} // verus!
