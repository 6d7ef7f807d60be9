//! Local control input state machine.
//!
//! Interprets the local control namespace on controller terminal input: the
//! `Ctrl+]` prefix and its selectors in pass-through, the modal file-transfer
//! input rules during path prompts and transfers, and full transparency for
//! non-interactive input.
//!
//! The machine performs no I/O and allocates nothing; every output buffer has
//! a fixed capacity. What it does is stated over [`ControlView`] and
//! [`OutcomeView`]: [`chunk_outcome`] folds the bytes of a chunk through
//! [`pass_through_byte`] or [`modal_byte`].

use vstd::prelude::*;

verus! {

/// Fixed capacity of one local input chunk and of the path and remainder
/// output buffers. Must not exceed the terminal input chunk bound.
pub const INPUT_CAPACITY: usize = 4096;

/// Worst-case remote output for one chunk: the input capacity plus one
/// carried-over escape byte whose selector arrives in the next chunk.
pub const REMOTE_CAPACITY: usize = INPUT_CAPACITY + 1;

/// `Ctrl+]`, the local control prefix byte.
pub const LOCAL_ESCAPE: u8 = 0x1d;

/// `Ctrl+C`, the direct modal cancellation byte.
pub const CANCEL_BYTE: u8 = 0x03;

/// `.`, the selector that ends the session.
pub const DETACH_SELECTOR: u8 = 0x2e;

/// `u`, the selector that starts an upload.
pub const UPLOAD_SELECTOR: u8 = 0x75;

/// `d`, the selector that starts a download.
pub const DOWNLOAD_SELECTOR: u8 = 0x64;

/// `?`, the selector that shows the help.
pub const HELP_SELECTOR: u8 = 0x3f;

/// Failures at the local control input boundary.
#[derive(Debug, Clone, Copy, PartialEq, Eq, Structural)]
pub enum LocalControlError {
    /// A chunk length larger than the fixed input capacity was requested.
    ChunkLengthExceedsCapacity,
    /// A transition that requires an active file operation was requested
    /// while no file operation was active.
    NoActiveModal,
}

impl LocalControlError {
    /// The text of the message.
    pub open spec fn text(self) -> Seq<char> {
        match self {
            LocalControlError::ChunkLengthExceedsCapacity => {
                "local input chunk length exceeds the fixed capacity"@
            },
            LocalControlError::NoActiveModal => "no local file operation is active"@,
        }
    }

    /// The message shown for the failure.
    pub fn message(&self) -> (text: String)
        ensures
            text@ == self.text(),
    {
        match self {
            LocalControlError::ChunkLengthExceedsCapacity => {
                "local input chunk length exceeds the fixed capacity".to_owned()
            },
            LocalControlError::NoActiveModal => "no local file operation is active".to_owned(),
        }
    }
}

/// The local action the coordinator must take after processing one input
/// chunk. When several local events occur in one chunk, the last one wins;
/// [`LocalAction::Detach`], [`LocalAction::CancelOp`] and the `u`/`d`
/// selectors stop processing the rest of their chunk.
#[derive(Debug, Clone, Copy, PartialEq, Eq, Structural)]
pub enum LocalAction {
    /// Pure forwarding: no local action.
    NoAction,
    /// `Ctrl+] .` in pass-through or modal: end the whole terminal session.
    /// The machine enters its ended state.
    Detach,
    /// `Ctrl+] u`: enter the upload interaction. The machine is now modal in
    /// the upload prompt phase.
    StartUpload,
    /// `Ctrl+] d`: enter the download interaction. The machine is now modal
    /// in the download prompt phase.
    StartDownload,
    /// `Ctrl+] ?`: display the local control help. In pass-through the rest of
    /// the chunk resumes ordinary forwarding; in modal the machine stays in its
    /// current phase.
    ShowHelp,
    /// `Ctrl+] u` or `Ctrl+] d` while a file operation is already active:
    /// report "file transfer already active" and keep the operation.
    AlreadyActive,
    /// `Ctrl+C` in modal: cancel the current file operation. Never forwarded
    /// to the remote terminal.
    CancelOp,
    /// Modal: an unrecognized or abandoned prefix selector (including
    /// `Ctrl+] Ctrl+]` and `Ctrl+] <other>`) rings the terminal bell and is
    /// ignored. Also the single bell allowed for the first paused ordinary
    /// input during a transfer.
    Bell,
}

impl Default for LocalAction {
    fn default() -> (action: Self)
        ensures
            action == LocalAction::NoAction,
    {
        LocalAction::NoAction
    }
}

/// The phase of an active file operation, which defines the input semantics
/// of the modal state.
#[derive(Debug, Clone, Copy, PartialEq, Eq, Structural)]
pub enum ModalPhase {
    /// Path prompt of an upload. Ordinary bytes are path editor input.
    UploadPrompt,
    /// Path prompt of a download. Ordinary bytes are path editor input.
    DownloadPrompt,
    /// The actual file transfer: ordinary input is paused, not forwarded,
    /// not queued and never replayed; the first dropped input may ring one
    /// bell.
    Transferring,
}

// ---------------------------------------------------------------------------
// Model
// ---------------------------------------------------------------------------

/// The state of the machine.
#[verifier::ext_equal]
pub struct ControlView {
    pub enabled: bool,
    pub ended: bool,
    pub pending_prefix: bool,
    pub modal: Option<ModalPhase>,
    pub transfer_bell_emitted: bool,
}

impl ControlView {
    /// What every reachable state satisfies: a disabled machine never ends,
    /// never waits for a selector and is never modal; an ended machine waits
    /// for nothing and is not modal.
    pub open spec fn valid(self) -> bool {
        &&& !self.enabled ==> !self.ended && !self.pending_prefix && self.modal is None
        &&& self.ended ==> !self.pending_prefix && self.modal is None
    }

    /// The state at the start of a session.
    pub open spec fn initial(enabled: bool, modal: Option<ModalPhase>) -> ControlView {
        ControlView {
            enabled,
            ended: false,
            pending_prefix: false,
            modal: if enabled { modal } else { None },
            transfer_bell_emitted: false,
        }
    }

    /// The state after the session was ended locally.
    pub open spec fn detached(self) -> ControlView {
        ControlView { ended: true, pending_prefix: false, modal: None, ..self }
    }

    /// The state after a file operation was started in `phase`.
    pub open spec fn prompting(self, phase: ModalPhase) -> ControlView {
        ControlView { modal: Some(phase), transfer_bell_emitted: false, ..self }
    }

    /// The state with the pending prefix set or cleared.
    pub open spec fn with_prefix(self, pending_prefix: bool) -> ControlView {
        ControlView { pending_prefix, ..self }
    }
}

/// What one chunk produced.
#[verifier::ext_equal]
pub struct OutcomeView {
    /// Bytes for the remote terminal.
    pub remote: Seq<u8>,
    /// Bytes for the path editor.
    pub path: Seq<u8>,
    /// Bytes for the file operation that the chunk started.
    pub remainder: Seq<u8>,
    /// The last local event of the chunk.
    pub action: LocalAction,
}

impl OutcomeView {
    /// Nothing at all.
    pub open spec fn nothing() -> OutcomeView {
        OutcomeView {
            remote: Seq::empty(),
            path: Seq::empty(),
            remainder: Seq::empty(),
            action: LocalAction::NoAction,
        }
    }

    pub open spec fn acting(self, action: LocalAction) -> OutcomeView {
        OutcomeView { action, ..self }
    }

    pub open spec fn forwarding(self, bytes: Seq<u8>) -> OutcomeView {
        OutcomeView { remote: self.remote + bytes, ..self }
    }

    pub open spec fn editing(self, byte: u8) -> OutcomeView {
        OutcomeView { path: self.path.push(byte), ..self }
    }

    pub open spec fn leaving(self, bytes: Seq<u8>) -> OutcomeView {
        OutcomeView { remainder: self.remainder + bytes, ..self }
    }

    /// The outcome of two chunks taken together: bytes in order, and the last
    /// action that is not [`LocalAction::NoAction`].
    pub open spec fn followed_by(self, next: OutcomeView) -> OutcomeView {
        OutcomeView {
            remote: self.remote + next.remote,
            path: self.path + next.path,
            remainder: self.remainder + next.remainder,
            action: if next.action == LocalAction::NoAction {
                self.action
            } else {
                next.action
            },
        }
    }

    /// The bytes handed to the local file operation, in order.
    pub open spec fn operation_input(self) -> Seq<u8> {
        self.remainder + self.path
    }
}

/// A machine part of the way through a chunk.
#[verifier::ext_equal]
pub struct Progress {
    pub state: ControlView,
    pub out: OutcomeView,
    /// The rest of the chunk is not looked at any more.
    pub stopped: bool,
}

/// One byte of pass-through input, with the bytes that follow it in its chunk.
pub open spec fn pass_through_byte(p: Progress, byte: u8, rest: Seq<u8>) -> Progress {
    if p.state.pending_prefix {
        let state = p.state.with_prefix(false);
        if byte == DETACH_SELECTOR {
            Progress {
                state: state.detached(),
                out: p.out.acting(LocalAction::Detach),
                stopped: true,
            }
        } else if byte == LOCAL_ESCAPE {
            Progress { state, out: p.out.forwarding(seq![LOCAL_ESCAPE]), ..p }
        } else if byte == UPLOAD_SELECTOR {
            Progress {
                state: state.prompting(ModalPhase::UploadPrompt),
                out: p.out.acting(LocalAction::StartUpload).leaving(rest),
                stopped: true,
            }
        } else if byte == DOWNLOAD_SELECTOR {
            Progress {
                state: state.prompting(ModalPhase::DownloadPrompt),
                out: p.out.acting(LocalAction::StartDownload).leaving(rest),
                stopped: true,
            }
        } else if byte == HELP_SELECTOR {
            Progress { state, out: p.out.acting(LocalAction::ShowHelp), ..p }
        } else {
            Progress { state, out: p.out.forwarding(seq![LOCAL_ESCAPE, byte]), ..p }
        }
    } else if byte == LOCAL_ESCAPE {
        Progress { state: p.state.with_prefix(true), ..p }
    } else {
        Progress { out: p.out.forwarding(seq![byte]), ..p }
    }
}

/// One byte of input while a file operation is active in `phase`.
pub open spec fn modal_byte(p: Progress, phase: ModalPhase, byte: u8) -> Progress {
    if p.state.pending_prefix {
        let state = p.state.with_prefix(false);
        if byte == DETACH_SELECTOR {
            Progress {
                state: state.detached(),
                out: p.out.acting(LocalAction::Detach),
                stopped: true,
            }
        } else if byte == HELP_SELECTOR {
            Progress { state, out: p.out.acting(LocalAction::ShowHelp), ..p }
        } else if byte == UPLOAD_SELECTOR || byte == DOWNLOAD_SELECTOR {
            Progress { state, out: p.out.acting(LocalAction::AlreadyActive), ..p }
        } else {
            Progress { state, out: p.out.acting(LocalAction::Bell), ..p }
        }
    } else if byte == LOCAL_ESCAPE {
        Progress { state: p.state.with_prefix(true), ..p }
    } else if byte == CANCEL_BYTE {
        Progress { out: p.out.acting(LocalAction::CancelOp), stopped: true, ..p }
    } else if phase == ModalPhase::Transferring {
        if p.state.transfer_bell_emitted {
            p
        } else {
            Progress {
                state: ControlView { transfer_bell_emitted: true, ..p.state },
                out: p.out.acting(LocalAction::Bell),
                ..p
            }
        }
    } else {
        Progress { out: p.out.editing(byte), ..p }
    }
}

/// One byte of a chunk that began in `phase` (`None`: pass-through).
pub open spec fn chunk_byte(
    p: Progress,
    phase: Option<ModalPhase>,
    byte: u8,
    rest: Seq<u8>,
) -> Progress {
    match phase {
        Some(active) => modal_byte(p, active, byte),
        None => pass_through_byte(p, byte, rest),
    }
}

/// The bytes of a chunk from left to right, until one of them stops it.
pub open spec fn fold_bytes(p: Progress, phase: Option<ModalPhase>, bytes: Seq<u8>) -> Progress
    decreases bytes.len(),
{
    if p.stopped || bytes.len() == 0 {
        p
    } else {
        fold_bytes(chunk_byte(p, phase, bytes[0], bytes.skip(1)), phase, bytes.skip(1))
    }
}

/// A chunk that is about to be read in state `s`.
pub open spec fn chunk_start(s: ControlView) -> Progress {
    Progress { state: s, out: OutcomeView::nothing(), stopped: false }
}

/// The state and the outcome after one whole chunk.
pub open spec fn chunk_outcome(s: ControlView, bytes: Seq<u8>) -> (ControlView, OutcomeView) {
    if s.ended {
        (s, OutcomeView::nothing())
    } else if !s.enabled {
        (s, OutcomeView::nothing().forwarding(bytes))
    } else {
        let p = fold_bytes(chunk_start(s), s.modal, bytes);
        (p.state, p.out)
    }
}

/// The state and the outcome at the end of the input.
pub open spec fn finish_outcome(s: ControlView) -> (ControlView, OutcomeView) {
    if s.ended || !s.enabled || !s.pending_prefix {
        (s, OutcomeView::nothing())
    } else if s.modal is Some {
        (s.with_prefix(false), OutcomeView::nothing().acting(LocalAction::Bell))
    } else {
        (s.with_prefix(false), OutcomeView::nothing().forwarding(seq![LOCAL_ESCAPE]))
    }
}

/// No byte of `bytes` has a meaning of its own while a file operation is
/// active.
pub open spec fn unreserved(bytes: Seq<u8>) -> bool {
    forall|i: int|
        0 <= i < bytes.len() ==> #[trigger] bytes[i] != LOCAL_ESCAPE && bytes[i] != CANCEL_BYTE
}

// ---------------------------------------------------------------------------
// Buffers
// ---------------------------------------------------------------------------

/// A fixed-capacity byte buffer that always exposes a valid view.
#[derive(Debug, PartialEq, Eq)]
struct BoundedBytes<const CAP: usize> {
    bytes: [u8; CAP],
    len: usize,
}

impl<const CAP: usize> BoundedBytes<CAP> {
    #[verifier::type_invariant]
    spec fn wf(self) -> bool {
        self.padded()
    }

    /// Every byte behind the contents is zero, so that two buffers with the same
    /// contents are equal.
    pub closed spec fn padded(self) -> bool {
        &&& self.len <= CAP
        &&& forall|i: int| self.len <= i < CAP ==> #[trigger] self.bytes@[i] == 0u8
    }

    pub closed spec fn contents(self) -> Seq<u8> {
        self.bytes@.take(self.len as int)
    }

    fn new() -> (buffer: Self)
        ensures
            buffer.contents() == Seq::<u8>::empty(),
            buffer.padded(),
    {
        BoundedBytes { bytes: [0;CAP], len: 0 }
    }

    fn as_slice(&self) -> (slice: &[u8])
        ensures
            slice@ == self.contents(),
            slice@.len() <= CAP,
    {
        proof {
            use_type_invariant(self);
        }
        &self.bytes[0..self.len]
    }

    fn is_empty(&self) -> (empty: bool)
        ensures
            empty == (self.contents().len() == 0),
    {
        proof {
            use_type_invariant(self);
        }
        self.len == 0
    }

    fn len(&self) -> (len: usize)
        ensures
            len == self.contents().len(),
            len <= CAP,
    {
        proof {
            use_type_invariant(self);
        }
        self.len
    }

    fn push(&mut self, byte: u8)
        requires
            old(self).contents().len() < CAP,
        ensures
            final(self).contents() == old(self).contents().push(byte),
            final(self).padded(),
    {
        proof {
            use_type_invariant(&*self);
        }
        let at: usize = self.len;
        self.len = at + 1;
        self.bytes[at] = byte;
        assert(self.contents() =~= old(self).contents().push(byte));
    }

    fn extend(&mut self, bytes: &[u8])
        requires
            old(self).contents().len() + bytes@.len() <= CAP,
        ensures
            final(self).contents() == old(self).contents() + bytes@,
            final(self).padded(),
    {
        proof {
            use_type_invariant(&*self);
        }
        let mut index: usize = 0;
        while index < bytes.len()
            invariant
                index <= bytes.len(),
                self.contents() == old(self).contents() + bytes@.take(index as int),
                self.padded(),
                old(self).contents().len() + bytes@.len() <= CAP,
            decreases bytes.len() - index,
        {
            self.push(bytes[index]);
            index += 1;
            assert(bytes@.take(index as int) =~= bytes@.take(index - 1).push(bytes@[index - 1]));
        }
        assert(bytes@.take(index as int) =~= bytes@);
    }
}

impl<const CAP: usize> Clone for BoundedBytes<CAP> {
    fn clone(&self) -> (copy: Self)
        ensures
            copy == *self,
            copy.padded(),
    {
        proof {
            use_type_invariant(self);
        }
        BoundedBytes { bytes: self.bytes, len: self.len }
    }
}

impl<const CAP: usize> Default for BoundedBytes<CAP> {
    fn default() -> (buffer: Self)
        ensures
            buffer.contents() == Seq::<u8>::empty(),
            buffer.padded(),
    {
        Self::new()
    }
}

proof fn lemma_equal_contents<const CAP: usize>(a: BoundedBytes<CAP>, b: BoundedBytes<CAP>)
    requires
        a.padded(),
        b.padded(),
        a.contents() == b.contents(),
    ensures
        a == b,
{
    assert(a.len == a.contents().len() && b.len == b.contents().len());
    assert forall|i: int| 0 <= i < CAP implies a.bytes[i] == b.bytes[i] by {
        if i < a.len {
            assert(a.contents()[i] == a.bytes@[i] && b.contents()[i] == b.bytes@[i]);
        } else {
            assert(a.bytes@[i] == 0u8 && b.bytes@[i] == 0u8);
        }
    }
    assert(a.bytes =~= b.bytes);
}

/// Bytes produced for forwarding to the remote terminal. Empty while the
/// machine is modal. Capacity: [`REMOTE_CAPACITY`].
#[derive(Debug, PartialEq, Eq)]
pub struct RemoteBytes(BoundedBytes<REMOTE_CAPACITY>);

impl View for RemoteBytes {
    type V = Seq<u8>;

    closed spec fn view(&self) -> Seq<u8> {
        self.0.contents()
    }
}

impl RemoteBytes {
    /// Every byte of the buffer behind its bytes is zero.
    pub closed spec fn padded(self) -> bool {
        self.0.padded()
    }

    /// The bytes to forward.
    #[must_use]
    pub fn as_slice(&self) -> (slice: &[u8])
        ensures
            slice@ == self@,
            slice@.len() <= REMOTE_CAPACITY,
    {
        self.0.as_slice()
    }

    /// Whether there is no byte.
    #[must_use]
    pub fn is_empty(&self) -> (empty: bool)
        ensures
            empty == (self@.len() == 0),
    {
        self.0.is_empty()
    }

    /// The number of bytes.
    #[must_use]
    pub fn len(&self) -> (len: usize)
        ensures
            len == self@.len(),
            len <= REMOTE_CAPACITY,
    {
        self.0.len()
    }
}

impl Clone for RemoteBytes {
    fn clone(&self) -> (copy: Self)
        ensures
            copy == *self,
            copy.padded(),
    {
        RemoteBytes(self.0.clone())
    }
}

impl Default for RemoteBytes {
    fn default() -> (bytes: Self)
        ensures
            bytes@ == Seq::<u8>::empty(),
            bytes.padded(),
    {
        RemoteBytes(BoundedBytes::new())
    }
}

/// Ordinary bytes typed while a modal path prompt is active; handed to the
/// local path editor. Capacity: [`INPUT_CAPACITY`].
#[derive(Debug, PartialEq, Eq)]
pub struct PathBytes(BoundedBytes<INPUT_CAPACITY>);

impl View for PathBytes {
    type V = Seq<u8>;

    closed spec fn view(&self) -> Seq<u8> {
        self.0.contents()
    }
}

impl PathBytes {
    /// Every byte of the buffer behind its bytes is zero.
    pub closed spec fn padded(self) -> bool {
        self.0.padded()
    }

    /// The bytes for the path editor.
    #[must_use]
    pub fn as_slice(&self) -> (slice: &[u8])
        ensures
            slice@ == self@,
            slice@.len() <= INPUT_CAPACITY,
    {
        self.0.as_slice()
    }

    /// Whether there is no byte.
    #[must_use]
    pub fn is_empty(&self) -> (empty: bool)
        ensures
            empty == (self@.len() == 0),
    {
        self.0.is_empty()
    }

    /// The number of bytes.
    #[must_use]
    pub fn len(&self) -> (len: usize)
        ensures
            len == self@.len(),
            len <= INPUT_CAPACITY,
    {
        self.0.len()
    }
}

impl Clone for PathBytes {
    fn clone(&self) -> (copy: Self)
        ensures
            copy == *self,
            copy.padded(),
    {
        PathBytes(self.0.clone())
    }
}

impl Default for PathBytes {
    fn default() -> (bytes: Self)
        ensures
            bytes@ == Seq::<u8>::empty(),
            bytes.padded(),
    {
        PathBytes(BoundedBytes::new())
    }
}

/// Bytes of the same chunk that follow a recognized `u` or `d` selector;
/// they belong to the newly started local file operation, in original order,
/// and must never be sent to the remote terminal. Capacity:
/// [`INPUT_CAPACITY`].
#[derive(Debug, PartialEq, Eq)]
pub struct RemainderBytes(BoundedBytes<INPUT_CAPACITY>);

impl View for RemainderBytes {
    type V = Seq<u8>;

    closed spec fn view(&self) -> Seq<u8> {
        self.0.contents()
    }
}

impl RemainderBytes {
    /// Every byte of the buffer behind its bytes is zero.
    pub closed spec fn padded(self) -> bool {
        self.0.padded()
    }

    /// The bytes for the file operation.
    #[must_use]
    pub fn as_slice(&self) -> (slice: &[u8])
        ensures
            slice@ == self@,
            slice@.len() <= INPUT_CAPACITY,
    {
        self.0.as_slice()
    }

    /// Whether there is no byte.
    #[must_use]
    pub fn is_empty(&self) -> (empty: bool)
        ensures
            empty == (self@.len() == 0),
    {
        self.0.is_empty()
    }

    /// The number of bytes.
    #[must_use]
    pub fn len(&self) -> (len: usize)
        ensures
            len == self@.len(),
            len <= INPUT_CAPACITY,
    {
        self.0.len()
    }
}

impl Clone for RemainderBytes {
    fn clone(&self) -> (copy: Self)
        ensures
            copy == *self,
            copy.padded(),
    {
        RemainderBytes(self.0.clone())
    }
}

impl Default for RemainderBytes {
    fn default() -> (bytes: Self)
        ensures
            bytes@ == Seq::<u8>::empty(),
            bytes.padded(),
    {
        RemainderBytes(BoundedBytes::new())
    }
}

/// A fixed-capacity chunk of local terminal input, sized like the existing
/// terminal input chunks (capacity [`INPUT_CAPACITY`]).
#[derive(Debug, PartialEq, Eq)]
pub struct LocalInputChunk {
    bytes: [u8; INPUT_CAPACITY],
    len: usize,
}

impl View for LocalInputChunk {
    type V = Seq<u8>;

    /// The valid input.
    closed spec fn view(&self) -> Seq<u8> {
        self.bytes@.take(self.len as int)
    }
}

impl LocalInputChunk {
    #[verifier::type_invariant]
    spec fn wf(self) -> bool {
        self.len <= INPUT_CAPACITY
    }

    /// The whole writable region, valid or not.
    pub closed spec fn buffer(self) -> Seq<u8> {
        self.bytes@
    }

    /// A chunk without input, whose writable region holds zeros.
    #[must_use]
    pub fn new() -> (chunk: Self)
        ensures
            chunk@ == Seq::<u8>::empty(),
            chunk.buffer() == Seq::new(INPUT_CAPACITY as nat, |i: int| 0u8),
    {
        LocalInputChunk { bytes: [0;INPUT_CAPACITY], len: 0 }
    }

    /// The writable region of the chunk; fill it and then call
    /// [`Self::set_len`] with the number of bytes actually read.
    #[must_use]
    pub fn writable(&mut self) -> (region: &mut [u8])
        ensures
            region@ == old(self).buffer(),
            region@.len() == INPUT_CAPACITY,
            final(self).buffer() == final(region)@,
            final(self)@.len() == old(self)@.len(),
            final(self)@ == final(region)@.take(old(self)@.len() as int),
    {
        proof {
            use_type_invariant(&*self);
        }
        &mut self.bytes
    }

    /// Records how many of the writable bytes are valid input.
    pub fn set_len(&mut self, len: usize) -> (result: Result<(), LocalControlError>)
        ensures
            final(self).buffer() == old(self).buffer(),
            len <= INPUT_CAPACITY ==> result is Ok && final(self)@ == old(self).buffer().take(
                len as int,
            ),
            len > INPUT_CAPACITY ==> result == Err::<(), LocalControlError>(
                LocalControlError::ChunkLengthExceedsCapacity,
            ) && *final(self) == *old(self),
    {
        if len > INPUT_CAPACITY {
            return Err(LocalControlError::ChunkLengthExceedsCapacity);
        }
        self.len = len;
        Ok(())
    }

    /// The valid input.
    #[must_use]
    pub fn as_slice(&self) -> (slice: &[u8])
        ensures
            slice@ == self@,
            slice@.len() <= INPUT_CAPACITY,
    {
        proof {
            use_type_invariant(self);
        }
        &self.bytes[0..self.len]
    }
}

impl Clone for LocalInputChunk {
    fn clone(&self) -> (copy: Self)
        ensures
            copy == *self,
    {
        proof {
            use_type_invariant(self);
        }
        LocalInputChunk { bytes: self.bytes, len: self.len }
    }
}

impl Default for LocalInputChunk {
    fn default() -> (chunk: Self)
        ensures
            chunk@ == Seq::<u8>::empty(),
            chunk.buffer() == Seq::new(INPUT_CAPACITY as nat, |i: int| 0u8),
    {
        Self::new()
    }
}

/// The outcome of processing one input chunk.
#[derive(Debug, PartialEq, Eq)]
pub struct ProcessedInput {
    /// Bytes to forward to the remote terminal; empty while modal.
    pub remote_bytes: RemoteBytes,
    /// Ordinary text typed while a modal path prompt is active; handed to the
    /// local path editor.
    pub path_bytes: PathBytes,
    /// Bytes following a recognized `u`/`d` selector in the same chunk; input
    /// for the local file operation, in original order.
    pub remainder: RemainderBytes,
    /// The local action for this chunk.
    pub action: LocalAction,
    /// True exactly when [`Self::remainder`] is non-empty: those bytes belong
    /// exclusively to the newly started local file operation and must be
    /// discarded, never forwarded to the remote, if the operation terminates
    /// before consuming them (peer without support, session closure, local
    /// initialization failure).
    pub drop_remainder: bool,
}

impl View for ProcessedInput {
    type V = OutcomeView;

    open spec fn view(&self) -> OutcomeView {
        OutcomeView {
            remote: self.remote_bytes@,
            path: self.path_bytes@,
            remainder: self.remainder@,
            action: self.action,
        }
    }
}

impl ProcessedInput {
    /// The remainder is marked for dropping exactly when there is one.
    pub open spec fn marked(self) -> bool {
        self.drop_remainder == (self.remainder@.len() > 0)
    }

    /// None of its buffers holds anything behind its bytes.
    pub open spec fn padded(self) -> bool {
        self.remote_bytes.padded() && self.path_bytes.padded() && self.remainder.padded()
    }
}

impl Clone for ProcessedInput {
    fn clone(&self) -> (copy: Self)
        ensures
            copy == *self,
            copy.padded(),
    {
        ProcessedInput {
            remote_bytes: self.remote_bytes.clone(),
            path_bytes: self.path_bytes.clone(),
            remainder: self.remainder.clone(),
            action: self.action,
            drop_remainder: self.drop_remainder,
        }
    }
}

impl Default for ProcessedInput {
    fn default() -> (processed: Self)
        ensures
            processed@ == OutcomeView::nothing(),
            processed.marked(),
            processed.padded(),
    {
        ProcessedInput {
            remote_bytes: RemoteBytes::default(),
            path_bytes: PathBytes::default(),
            remainder: RemainderBytes::default(),
            action: LocalAction::NoAction,
            drop_remainder: false,
        }
    }
}

// ---------------------------------------------------------------------------
// Machine
// ---------------------------------------------------------------------------

/// The local control input state machine.
///
/// State: pass-through, modal with a prompt or transfer phase, and a terminal
/// ended state reached on [`LocalAction::Detach`].
#[derive(Debug, PartialEq, Eq)]
pub struct LocalControlInput {
    enabled: bool,
    ended: bool,
    pending_prefix: bool,
    modal: Option<ModalPhase>,
    transfer_bell_emitted: bool,
}

impl View for LocalControlInput {
    type V = ControlView;

    closed spec fn view(&self) -> ControlView {
        ControlView {
            enabled: self.enabled,
            ended: self.ended,
            pending_prefix: self.pending_prefix,
            modal: self.modal,
            transfer_bell_emitted: self.transfer_bell_emitted,
        }
    }
}

impl Clone for LocalControlInput {
    fn clone(&self) -> (copy: Self)
        ensures
            copy == *self,
    {
        LocalControlInput {
            enabled: self.enabled,
            ended: self.ended,
            pending_prefix: self.pending_prefix,
            modal: self.modal,
            transfer_bell_emitted: self.transfer_bell_emitted,
        }
    }
}

impl LocalControlInput {
    /// Creates the machine.
    ///
    /// With `enabled = false` the machine is fully transparent: no byte has
    /// local semantics, everything is forwarded, and `modal` is ignored. With
    /// `enabled = true, modal = false` the machine starts in pass-through.
    /// With `enabled = true, modal = true` the machine starts with a file
    /// operation already active in the upload prompt phase (the input
    /// semantics of both prompt directions are identical; use
    /// [`Self::with_modal_phase`] to select the direction explicitly).
    #[must_use]
    pub fn new(enabled: bool, modal: bool) -> (machine: Self)
        ensures
            machine@ == ControlView::initial(
                enabled,
                if modal {
                    Some(ModalPhase::UploadPrompt)
                } else {
                    None
                },
            ),
            machine@.valid(),
    {
        LocalControlInput {
            enabled,
            ended: false,
            pending_prefix: false,
            modal: if enabled && modal {
                Some(ModalPhase::UploadPrompt)
            } else {
                None
            },
            transfer_bell_emitted: false,
        }
    }

    /// Creates the machine with an explicit initial modal phase; ignored when
    /// `enabled` is false.
    #[must_use]
    pub fn with_modal_phase(enabled: bool, phase: ModalPhase) -> (machine: Self)
        ensures
            machine@ == ControlView::initial(enabled, Some(phase)),
            machine@.valid(),
    {
        LocalControlInput {
            enabled,
            ended: false,
            pending_prefix: false,
            modal: if enabled {
                Some(phase)
            } else {
                None
            },
            transfer_bell_emitted: false,
        }
    }

    /// Whether local control interpretation is enabled (interactive input).
    #[must_use]
    pub fn enabled(&self) -> (enabled: bool)
        ensures
            enabled == self@.enabled,
    {
        self.enabled
    }

    /// Whether the machine has ended after a [`LocalAction::Detach`]; every
    /// further call yields nothing.
    #[must_use]
    pub fn ended(&self) -> (ended: bool)
        ensures
            ended == self@.ended,
    {
        self.ended
    }

    /// The phase of the active file operation, if any.
    #[must_use]
    pub fn modal_phase(&self) -> (phase: Option<ModalPhase>)
        ensures
            phase == self@.modal,
    {
        self.modal
    }

    /// Whether a `Ctrl+]` prefix is awaiting its selector; the selector may
    /// arrive in the next chunk.
    #[must_use]
    pub fn pending_prefix(&self) -> (pending: bool)
        ensures
            pending == self@.pending_prefix,
    {
        self.pending_prefix
    }

    /// Processes one bounded input chunk and returns the local outcome.
    ///
    /// Prefix and selector may span chunk boundaries; an empty chunk never
    /// changes the state. When `u` or `d` is recognized, the machine enters
    /// the modal prompt phase and the rest of the chunk becomes the remainder
    /// for the local file operation; when `?` is recognized the rest of the
    /// chunk resumes ordinary forwarding.
    #[must_use]
    pub fn process(&mut self, input: LocalInputChunk) -> (result: ProcessedInput)
        ensures
            (final(self)@, result@) == chunk_outcome(old(self)@, input@),
            result.marked(),
            result.padded(),
            old(self)@.valid() ==> final(self)@.valid(),
    {
        let mut result = ProcessedInput::default();
        if self.ended {
            return result;
        }
        if !self.enabled {
            let bytes = input.as_slice();
            result.remote_bytes.0.extend(bytes);
            return result;
        }
        proof {
            lemma_fold_keeps_valid(chunk_start(old(self)@), old(self)@.modal, input@);
        }
        match self.modal {
            Some(phase) => self.process_modal(input, phase, &mut result),
            None => self.process_pass_through(input, &mut result),
        }
        result
    }

    /// End of the local input stream. An orphaned prefix in pass-through is
    /// flushed as a literal `Ctrl+]`; an orphaned prefix in modal rings the
    /// bell and is ignored. Never yields path or remainder bytes.
    #[must_use]
    pub fn finish(&mut self) -> (result: ProcessedInput)
        ensures
            (final(self)@, result@) == finish_outcome(old(self)@),
            result.marked(),
            result.padded(),
            old(self)@.valid() ==> final(self)@.valid(),
    {
        let mut result = ProcessedInput::default();
        if self.ended || !self.enabled {
            return result;
        }
        if self.pending_prefix {
            self.pending_prefix = false;
            match self.modal {
                Some(_) => {
                    result.action = LocalAction::Bell;
                },
                None => {
                    result.remote_bytes.0.push(LOCAL_ESCAPE);
                },
            }
        }
        result
    }

    /// Advances an active prompt phase to the transferring phase. Calling it
    /// while already transferring is a no-op; calling it with no active file
    /// operation is [`LocalControlError::NoActiveModal`].
    pub fn enter_transfer(&mut self) -> (result: Result<(), LocalControlError>)
        ensures
            result == (match old(self)@.modal {
                Some(_) => Ok(()),
                None => Err(LocalControlError::NoActiveModal),
            }),
            final(self)@ == (match old(self)@.modal {
                Some(ModalPhase::UploadPrompt) | Some(
                    ModalPhase::DownloadPrompt,
                ) => old(self)@.prompting(ModalPhase::Transferring),
                _ => old(self)@,
            }),
            old(self)@.valid() ==> final(self)@.valid(),
    {
        match self.modal {
            Some(ModalPhase::UploadPrompt) | Some(ModalPhase::DownloadPrompt) => {
                self.modal = Some(ModalPhase::Transferring);
                self.transfer_bell_emitted = false;
                Ok(())
            },
            Some(ModalPhase::Transferring) => Ok(()),
            None => Err(LocalControlError::NoActiveModal),
        }
    }

    /// Ends the active file operation and returns to pass-through input.
    ///
    /// A `Ctrl+]` prefix abandoned by the transition (no selector arrived
    /// yet) is answered with [`LocalAction::Bell`] and cleared; it never
    /// carries into pass-through, so it cannot detach the session later.
    /// Returns the bell action when a prefix was abandoned, otherwise
    /// [`LocalAction::NoAction`].
    #[must_use]
    pub fn leave_modal(&mut self) -> (action: LocalAction)
        ensures
            final(self)@ == (ControlView {
                modal: None,
                transfer_bell_emitted: false,
                pending_prefix: false,
                ..old(self)@
            }),
            action == (if old(self)@.pending_prefix {
                LocalAction::Bell
            } else {
                LocalAction::NoAction
            }),
            old(self)@.valid() ==> final(self)@.valid(),
    {
        self.modal = None;
        self.transfer_bell_emitted = false;
        if self.pending_prefix {
            self.pending_prefix = false;
            LocalAction::Bell
        } else {
            LocalAction::NoAction
        }
    }

    fn process_pass_through(&mut self, input: LocalInputChunk, result: &mut ProcessedInput)
        requires
            old(result)@ == OutcomeView::nothing(),
            old(result).marked(),
            old(result).padded(),
        ensures
            fold_bytes(chunk_start(old(self)@), None, input@) == (Progress {
                state: final(self)@,
                out: final(result)@,
                stopped: fold_bytes(chunk_start(old(self)@), None, input@).stopped,
            }),
            final(result).marked(),
            final(result).padded(),
    {
        let bytes = input.as_slice();
        let mut index: usize = 0;
        assert(bytes@.skip(0) =~= bytes@);
        assert(old(result)@ =~= OutcomeView::nothing());
        while index < bytes.len()
            invariant
                index <= bytes.len() <= INPUT_CAPACITY,
                bytes@ == input@,
                result.marked(),
                result.padded(),
                result@.remainder == Seq::<u8>::empty(),
                result@.remote.len() + (if self@.pending_prefix {
                    1int
                } else {
                    0
                }) <= index + 1,
                fold_bytes(chunk_start(old(self)@), None, input@) == fold_bytes(
                    Progress { state: self@, out: result@, stopped: false },
                    None,
                    bytes@.skip(index as int),
                ),
            decreases bytes.len() - index,
        {
            let byte = bytes[index];
            let ghost p = Progress { state: self@, out: result@, stopped: false };
            let ghost rest = bytes@.skip(index as int);
            assert(rest.skip(1) =~= bytes@.skip(index + 1));
            assert(rest[0] == byte);
            let ghost next = pass_through_byte(p, byte, rest.skip(1));
            assert(fold_bytes(p, None, rest) == fold_bytes(next, None, rest.skip(1)));
            if self.pending_prefix {
                self.pending_prefix = false;
                if byte == DETACH_SELECTOR {
                    // Detach ends the session; the rest of the chunk is moot
                    // and the machine ends.
                    result.action = LocalAction::Detach;
                    self.end_session();
                    assert((Progress { state: self@, out: result@, stopped: true }) =~= next);
                    return;
                } else if byte == LOCAL_ESCAPE {
                    // Ctrl+] Ctrl+] sends a literal Ctrl+].
                    result.remote_bytes.0.push(LOCAL_ESCAPE);
                } else if byte == UPLOAD_SELECTOR {
                    result.action = LocalAction::StartUpload;
                    self.enter_prompt(ModalPhase::UploadPrompt);
                    result.remainder.0.extend(&bytes[index + 1..bytes.len()]);
                    result.drop_remainder = !result.remainder.is_empty();
                    assert(bytes@.subrange(index + 1, bytes@.len() as int) =~= rest.skip(1));
                    assert((Progress { state: self@, out: result@, stopped: true }) =~= next);
                    return;
                } else if byte == DOWNLOAD_SELECTOR {
                    result.action = LocalAction::StartDownload;
                    self.enter_prompt(ModalPhase::DownloadPrompt);
                    result.remainder.0.extend(&bytes[index + 1..bytes.len()]);
                    result.drop_remainder = !result.remainder.is_empty();
                    assert(bytes@.subrange(index + 1, bytes@.len() as int) =~= rest.skip(1));
                    assert((Progress { state: self@, out: result@, stopped: true }) =~= next);
                    return;
                } else if byte == HELP_SELECTOR {
                    // Show help; the rest of the chunk resumes ordinary
                    // forwarding.
                    result.action = LocalAction::ShowHelp;
                } else {
                    // Unrecognized selectors (including uppercase U/D) are
                    // forwarded transparently.
                    result.remote_bytes.0.push(LOCAL_ESCAPE);
                    result.remote_bytes.0.push(byte);
                }
            } else if byte == LOCAL_ESCAPE {
                self.pending_prefix = true;
            } else {
                result.remote_bytes.0.push(byte);
            }
            assert((Progress { state: self@, out: result@, stopped: false }) =~= next);
            index += 1;
        }
    }

    #[verifier::rlimit(40)]
    fn process_modal(
        &mut self,
        input: LocalInputChunk,
        phase: ModalPhase,
        result: &mut ProcessedInput,
    )
        requires
            old(result)@ == OutcomeView::nothing(),
            old(result).marked(),
            old(result).padded(),
        ensures
            fold_bytes(chunk_start(old(self)@), Some(phase), input@) == (Progress {
                state: final(self)@,
                out: final(result)@,
                stopped: fold_bytes(chunk_start(old(self)@), Some(phase), input@).stopped,
            }),
            final(result).marked(),
            final(result).padded(),
    {
        let bytes = input.as_slice();
        let mut index: usize = 0;
        assert(bytes@.skip(0) =~= bytes@);
        assert(old(result)@ =~= OutcomeView::nothing());
        while index < bytes.len()
            invariant
                index <= bytes.len() <= INPUT_CAPACITY,
                bytes@ == input@,
                result.marked(),
                result.padded(),
                result@.path.len() <= index,
                fold_bytes(chunk_start(old(self)@), Some(phase), input@) == fold_bytes(
                    Progress { state: self@, out: result@, stopped: false },
                    Some(phase),
                    bytes@.skip(index as int),
                ),
            decreases bytes.len() - index,
        {
            let byte = bytes[index];
            let ghost p = Progress { state: self@, out: result@, stopped: false };
            let ghost rest = bytes@.skip(index as int);
            assert(rest.skip(1) =~= bytes@.skip(index + 1));
            assert(rest[0] == byte);
            let ghost next = modal_byte(p, phase, byte);
            assert(fold_bytes(p, Some(phase), rest) == fold_bytes(next, Some(phase), rest.skip(1)));
            if self.pending_prefix {
                self.pending_prefix = false;
                if byte == DETACH_SELECTOR {
                    // Cancel the operation and end the session.
                    result.action = LocalAction::Detach;
                    self.end_session();
                    assert((Progress { state: self@, out: result@, stopped: true }) =~= next);
                    return;
                } else if byte == HELP_SELECTOR {
                    // Show help and stay in the current phase.
                    result.action = LocalAction::ShowHelp;
                } else if byte == UPLOAD_SELECTOR || byte == DOWNLOAD_SELECTOR {
                    // A second operation is refused while one is active.
                    result.action = LocalAction::AlreadyActive;
                } else {
                    // Ctrl+] Ctrl+] and unknown selectors ring the bell and
                    // are never forwarded.
                    result.action = LocalAction::Bell;
                }
            } else if byte == LOCAL_ESCAPE {
                self.pending_prefix = true;
            } else if byte == CANCEL_BYTE {
                // Ctrl+C cancels the operation directly, without a prefix, and
                // is never forwarded; the rest of the chunk is dead input for
                // the cancelling operation.
                result.action = LocalAction::CancelOp;
                assert((Progress { state: self@, out: result@, stopped: true }) =~= next);
                return;
            } else {
                match phase {
                    ModalPhase::UploadPrompt | ModalPhase::DownloadPrompt => {
                        // Ordinary bytes (including editor control bytes) are
                        // path editor input.
                        result.path_bytes.0.push(byte);
                    },
                    ModalPhase::Transferring => {
                        // Paused input is dropped and never replayed; the
                        // first drop rings one local bell.
                        if !self.transfer_bell_emitted {
                            self.transfer_bell_emitted = true;
                            result.action = LocalAction::Bell;
                        }
                    },
                }
            }
            assert((Progress { state: self@, out: result@, stopped: false }) =~= next);
            index += 1;
        }
    }

    fn enter_prompt(&mut self, phase: ModalPhase)
        ensures
            final(self)@ == old(self)@.prompting(phase),
    {
        self.modal = Some(phase);
        self.transfer_bell_emitted = false;
    }

    fn end_session(&mut self)
        ensures
            final(self)@ == old(self)@.detached(),
    {
        self.ended = true;
        self.modal = None;
        self.pending_prefix = false;
    }
}

// ---------------------------------------------------------------------------
// Laws
// ---------------------------------------------------------------------------

proof fn lemma_fold_keeps_valid(p: Progress, phase: Option<ModalPhase>, bytes: Seq<u8>)
    requires
        p.state.enabled,
        p.stopped || !p.state.ended,
    ensures
        p.state.valid() ==> fold_bytes(p, phase, bytes).state.valid(),
        fold_bytes(p, phase, bytes).state.enabled,
    decreases bytes.len(),
{
    if !p.stopped && bytes.len() > 0 {
        let next = chunk_byte(p, phase, bytes[0], bytes.skip(1));
        if next.stopped {
            assert(fold_bytes(next, phase, bytes.skip(1)) == next);
        } else {
            lemma_fold_keeps_valid(next, phase, bytes.skip(1));
        }
    }
}

/// Where a chunk has got to does not depend on what it has produced so far.
proof fn lemma_fold_frame(p: Progress, phase: Option<ModalPhase>, bytes: Seq<u8>)
    ensures
        ({
            let fresh = fold_bytes(
                Progress { out: OutcomeView::nothing(), ..p },
                phase,
                bytes,
            );
            fold_bytes(p, phase, bytes) == (Progress {
                out: p.out.followed_by(fresh.out),
                ..fresh
            })
        }),
    decreases bytes.len(),
{
    let clean = Progress { out: OutcomeView::nothing(), ..p };
    if p.stopped || bytes.len() == 0 {
        assert(p.out =~= p.out.followed_by(OutcomeView::nothing()));
    } else {
        let rest = bytes.skip(1);
        let next = chunk_byte(p, phase, bytes[0], rest);
        let clean_next = chunk_byte(clean, phase, bytes[0], rest);
        lemma_fold_frame(next, phase, rest);
        lemma_fold_frame(clean_next, phase, rest);
        assert(next.out =~= p.out.followed_by(clean_next.out));
        let fresh = fold_bytes(Progress { out: OutcomeView::nothing(), ..next }, phase, rest);
        assert(next.out.followed_by(fresh.out) =~= p.out.followed_by(
            clean_next.out.followed_by(fresh.out),
        ));
    }
}

/// The action says that the chunk started a file operation.
pub open spec fn starts_operation(action: LocalAction) -> bool {
    action == LocalAction::StartUpload || action == LocalAction::StartDownload
}

/// Reading two runs of bytes as one.
proof fn lemma_fold_append(p: Progress, phase: Option<ModalPhase>, a: Seq<u8>, b: Seq<u8>)
    requires
        !p.stopped,
    ensures
        ({
            let first = fold_bytes(p, phase, a);
            let whole = fold_bytes(p, phase, a + b);
            &&& !first.stopped ==> whole == fold_bytes(first, phase, b)
            &&& first.stopped && phase is None && starts_operation(first.out.action) ==> whole == (
            Progress { out: first.out.leaving(b), ..first })
            &&& first.stopped && !(phase is None && starts_operation(first.out.action)) ==> whole
                == first
        }),
    decreases a.len(),
{
    if a.len() == 0 {
        assert(a + b =~= b);
    } else {
        let rest = a.skip(1);
        assert((a + b).skip(1) =~= rest + b);
        assert((a + b)[0] == a[0]);
        let next = chunk_byte(p, phase, a[0], rest);
        let whole_next = chunk_byte(p, phase, a[0], rest + b);
        assert(fold_bytes(p, phase, a) == fold_bytes(next, phase, rest));
        assert(fold_bytes(p, phase, a + b) == fold_bytes(whole_next, phase, rest + b));
        if next.stopped {
            assert(fold_bytes(next, phase, rest) == next);
            assert(fold_bytes(whole_next, phase, rest + b) == whole_next);
            if phase is None && starts_operation(next.out.action) {
                assert(whole_next.out =~= next.out.leaving(b));
            }
        } else {
            assert(next == whole_next);
            lemma_fold_append(next, phase, rest, b);
        }
    }
}

/// Unreserved bytes typed at a path prompt are path input and nothing else.
proof fn lemma_fold_prompt(p: Progress, phase: ModalPhase, bytes: Seq<u8>)
    requires
        !p.stopped,
        !p.state.pending_prefix,
        phase != ModalPhase::Transferring,
        unreserved(bytes),
    ensures
        fold_bytes(p, Some(phase), bytes) == (Progress {
            out: OutcomeView { path: p.out.path + bytes, ..p.out },
            ..p
        }),
    decreases bytes.len(),
{
    if bytes.len() == 0 {
        assert(p.out.path + bytes =~= p.out.path);
    } else {
        let rest = bytes.skip(1);
        let next = modal_byte(p, phase, bytes[0]);
        assert(next == Progress { out: p.out.editing(bytes[0]), ..p });
        assert forall|i: int| 0 <= i < rest.len() implies #[trigger] rest[i] != LOCAL_ESCAPE
            && rest[i] != CANCEL_BYTE by {
            assert(rest[i] == bytes[i + 1]);
        }
        lemma_fold_prompt(next, phase, rest);
        assert(p.out.path.push(bytes[0]) + rest =~= p.out.path + bytes);
    }
}

/// What a chunk leaves behind, by the way it ended.
proof fn lemma_fold_shape(p: Progress, phase: Option<ModalPhase>, bytes: Seq<u8>)
    requires
        !p.stopped,
        p.state.enabled,
        !p.state.ended,
        p.state.modal == phase,
    ensures
        ({
            let end = fold_bytes(p, phase, bytes);
            &&& end.state.enabled
            &&& end.stopped ==> {
                ||| end.out.action == LocalAction::Detach && end.state.ended
                ||| phase is None && starts_operation(end.out.action) && !end.state.ended
                    && !end.state.pending_prefix && (end.state.modal == Some(
                    ModalPhase::UploadPrompt,
                ) || end.state.modal == Some(ModalPhase::DownloadPrompt))
                ||| phase is Some && end.out.action == LocalAction::CancelOp && !end.state.ended
                    && end.state.modal == phase
            }
            &&& !end.stopped ==> !end.state.ended && end.state.modal == phase
        }),
    decreases bytes.len(),
{
    if bytes.len() > 0 {
        let next = chunk_byte(p, phase, bytes[0], bytes.skip(1));
        if next.stopped {
            assert(fold_bytes(next, phase, bytes.skip(1)) == next);
        } else {
            lemma_fold_shape(next, phase, bytes.skip(1));
        }
    }
}

/// An empty chunk changes nothing and produces nothing.
pub proof fn law_an_empty_chunk_changes_nothing(s: ControlView)
    ensures
        chunk_outcome(s, Seq::empty()) == (s, OutcomeView::nothing()),
{
    assert(OutcomeView::nothing().forwarding(Seq::empty()) =~= OutcomeView::nothing());
}

/// After a detach every further chunk, and the end of the input, yields
/// nothing and keeps the machine ended.
pub proof fn law_an_ended_machine_yields_nothing(s: ControlView, bytes: Seq<u8>)
    requires
        s.ended,
    ensures
        chunk_outcome(s, bytes) == (s, OutcomeView::nothing()),
        finish_outcome(s) == (s, OutcomeView::nothing()),
{
}

/// Non-interactive input is forwarded verbatim and no byte of it changes the
/// machine.
pub proof fn law_disabled_input_is_transparent(s: ControlView, bytes: Seq<u8>)
    requires
        s.valid(),
        !s.enabled,
    ensures
        chunk_outcome(s, bytes).0 == s,
        chunk_outcome(s, bytes).1 == (OutcomeView { remote: bytes, ..OutcomeView::nothing() }),
        finish_outcome(s) == (s, OutcomeView::nothing()),
{
    assert(Seq::<u8>::empty() + bytes =~= bytes);
}

/// A chunk that begins while a file operation is active sends no byte to the
/// remote terminal and leaves no remainder.
pub proof fn law_modal_input_is_never_forwarded(s: ControlView, bytes: Seq<u8>)
    requires
        s.valid(),
        s.modal is Some,
    ensures
        chunk_outcome(s, bytes).1.remote == Seq::<u8>::empty(),
        chunk_outcome(s, bytes).1.remainder == Seq::<u8>::empty(),
        finish_outcome(s).1.remote == Seq::<u8>::empty(),
{
    lemma_modal_fold(chunk_start(s), s.modal->0, bytes);
}

proof fn lemma_modal_fold(p: Progress, phase: ModalPhase, bytes: Seq<u8>)
    ensures
        fold_bytes(p, Some(phase), bytes).out.remote == p.out.remote,
        fold_bytes(p, Some(phase), bytes).out.remainder == p.out.remainder,
        fold_bytes(p, Some(phase), bytes).out.path.len() <= p.out.path.len() + bytes.len(),
    decreases bytes.len(),
{
    if !p.stopped && bytes.len() > 0 {
        lemma_modal_fold(modal_byte(p, phase, bytes[0]), phase, bytes.skip(1));
    }
}

proof fn lemma_pass_fold_sizes(p: Progress, bytes: Seq<u8>)
    requires
        !p.stopped,
        p.out.remainder.len() == 0,
    ensures
        ({
            let end = fold_bytes(p, None, bytes);
            let carried: int = if p.state.pending_prefix {
                1
            } else {
                0
            };
            &&& end.out.path == p.out.path
            &&& end.out.remote.len() + end.out.remainder.len() <= p.out.remote.len() + carried
                + bytes.len()
            &&& end.out.remainder.len() + 2 <= bytes.len() + carried || end.out.remainder.len() == 0
        }),
    decreases bytes.len(),
{
    if bytes.len() > 0 {
        let next = pass_through_byte(p, bytes[0], bytes.skip(1));
        if next.stopped {
            assert(fold_bytes(next, None, bytes.skip(1)) == next);
        } else {
            lemma_pass_fold_sizes(next, bytes.skip(1));
        }
    }
}

/// The outputs of a chunk fit their fixed capacities: at most one byte more
/// than the chunk goes to the remote terminal (the carried prefix), and a
/// remainder is at least as much shorter than the chunk as the prefix and the
/// selector are long.
pub proof fn law_outputs_are_bounded_by_the_chunk(s: ControlView, bytes: Seq<u8>)
    ensures
        ({
            let out = chunk_outcome(s, bytes).1;
            let carried: int = if s.pending_prefix {
                1
            } else {
                0
            };
            &&& out.remote.len() <= bytes.len() + carried
            &&& out.path.len() <= bytes.len()
            &&& out.remainder.len() == 0 || out.remainder.len() + 2 <= bytes.len() + carried
        }),
{
    if !s.ended && s.enabled {
        match s.modal {
            Some(phase) => lemma_modal_fold(chunk_start(s), phase, bytes),
            None => lemma_pass_fold_sizes(chunk_start(s), bytes),
        }
    }
}

/// In pass-through, input without `Ctrl+]` is forwarded byte for byte.
pub proof fn law_plain_input_is_forwarded_exactly(s: ControlView, bytes: Seq<u8>)
    requires
        s.enabled,
        !s.ended,
        !s.pending_prefix,
        s.modal is None,
        !bytes.contains(LOCAL_ESCAPE),
    ensures
        chunk_outcome(s, bytes) == (s, OutcomeView::nothing().forwarding(bytes)),
{
    lemma_plain_fold(chunk_start(s), bytes);
}

proof fn lemma_plain_fold(p: Progress, bytes: Seq<u8>)
    requires
        !p.stopped,
        !p.state.pending_prefix,
        !bytes.contains(LOCAL_ESCAPE),
    ensures
        fold_bytes(p, None, bytes) == (Progress { out: p.out.forwarding(bytes), ..p }),
    decreases bytes.len(),
{
    if bytes.len() == 0 {
        assert(p.out.forwarding(bytes) =~= p.out);
    } else {
        let rest = bytes.skip(1);
        assert(bytes.contains(bytes[0]));
        assert forall|i: int| 0 <= i < rest.len() implies rest[i] != LOCAL_ESCAPE by {
            assert(bytes.contains(bytes[i + 1]));
        }
        let next = pass_through_byte(p, bytes[0], rest);
        lemma_plain_fold(next, rest);
        assert(next.out.forwarding(rest) =~= p.out.forwarding(bytes));
    }
}

/// `Ctrl+] Ctrl+]` sends one literal `Ctrl+]`, and `Ctrl+]` before any byte
/// that is no selector (an uppercase letter, say) sends both bytes.
pub proof fn law_other_selectors_are_forwarded(s: ControlView, selector: u8)
    requires
        s.enabled,
        !s.ended,
        !s.pending_prefix,
        s.modal is None,
        selector != DETACH_SELECTOR,
        selector != UPLOAD_SELECTOR,
        selector != DOWNLOAD_SELECTOR,
        selector != HELP_SELECTOR,
    ensures
        chunk_outcome(s, seq![LOCAL_ESCAPE, selector]) == (
            s,
            OutcomeView::nothing().forwarding(
                if selector == LOCAL_ESCAPE {
                    seq![LOCAL_ESCAPE]
                } else {
                    seq![LOCAL_ESCAPE, selector]
                },
            ),
        ),
{
    lemma_prefix_pair(s, selector);
}

proof fn lemma_prefix_pair(s: ControlView, selector: u8)
    requires
        s.enabled,
        !s.ended,
        !s.pending_prefix,
    ensures
        ({
            let start = chunk_start(s.with_prefix(true));
            let end = chunk_byte(start, s.modal, selector, Seq::empty());
            chunk_outcome(s, seq![LOCAL_ESCAPE, selector]) == (end.state, end.out)
        }),
{
    let pair = seq![LOCAL_ESCAPE, selector];
    let p = chunk_start(s);
    let second = chunk_byte(p, s.modal, pair[0], pair.skip(1));
    assert(second == chunk_start(s.with_prefix(true)));
    assert(pair.skip(1) =~= seq![selector]);
    assert(pair.skip(1).skip(1) =~= Seq::<u8>::empty());
    assert(fold_bytes(p, s.modal, pair) == fold_bytes(second, s.modal, pair.skip(1)));
    let third = chunk_byte(second, s.modal, selector, Seq::empty());
    assert(fold_bytes(second, s.modal, pair.skip(1)) == fold_bytes(third, s.modal, Seq::empty()));
}

/// At most one file operation is active: while one is, `Ctrl+] u` and
/// `Ctrl+] d` are answered with [`LocalAction::AlreadyActive`] and change
/// nothing.
pub proof fn law_a_second_operation_is_refused(s: ControlView, selector: u8)
    requires
        s.valid(),
        s.modal is Some,
        !s.pending_prefix,
        selector == UPLOAD_SELECTOR || selector == DOWNLOAD_SELECTOR,
    ensures
        chunk_outcome(s, seq![LOCAL_ESCAPE, selector]) == (
            s,
            OutcomeView::nothing().acting(LocalAction::AlreadyActive),
        ),
{
    lemma_prefix_pair(s, selector);
}

/// Input paused during a transfer is dropped: it reaches neither the remote
/// terminal nor the editor, and of all such chunks only the first that holds a
/// byte rings the bell.
pub proof fn law_a_transfer_rings_once(s: ControlView, bytes: Seq<u8>)
    requires
        s.valid(),
        s.modal == Some(ModalPhase::Transferring),
        !s.pending_prefix,
        unreserved(bytes),
    ensures
        chunk_outcome(s, bytes) == (
            ControlView {
                transfer_bell_emitted: s.transfer_bell_emitted || bytes.len() > 0,
                ..s
            },
            OutcomeView::nothing().acting(
                if !s.transfer_bell_emitted && bytes.len() > 0 {
                    LocalAction::Bell
                } else {
                    LocalAction::NoAction
                },
            ),
        ),
{
    let p = chunk_start(s);
    if bytes.len() > 0 {
        let rest = bytes.skip(1);
        let next = modal_byte(p, ModalPhase::Transferring, bytes[0]);
        assert forall|i: int| 0 <= i < rest.len() implies #[trigger] rest[i] != LOCAL_ESCAPE
            && rest[i] != CANCEL_BYTE by {
            assert(rest[i] == bytes[i + 1]);
        }
        assert(next.state.transfer_bell_emitted);
        lemma_silent_fold(next, rest);
        assert(fold_bytes(p, s.modal, bytes) == fold_bytes(next, s.modal, rest));
    }
}

proof fn lemma_silent_fold(p: Progress, bytes: Seq<u8>)
    requires
        !p.stopped,
        !p.state.pending_prefix,
        p.state.transfer_bell_emitted,
        unreserved(bytes),
    ensures
        fold_bytes(p, Some(ModalPhase::Transferring), bytes) == p,
    decreases bytes.len(),
{
    if bytes.len() > 0 {
        let rest = bytes.skip(1);
        assert forall|i: int| 0 <= i < rest.len() implies #[trigger] rest[i] != LOCAL_ESCAPE
            && rest[i] != CANCEL_BYTE by {
            assert(rest[i] == bytes[i + 1]);
        }
        lemma_silent_fold(p, rest);
    }
}

/// The bytes of a remainder are the end of their chunk, and nothing of them is
/// among the bytes that the chunk forwards.
pub proof fn law_a_remainder_is_never_forwarded(s: ControlView, bytes: Seq<u8>)
    ensures
        ({
            let out = chunk_outcome(s, bytes).1;
            let split = bytes.len() - out.remainder.len();
            &&& 0 <= split
            &&& bytes.skip(split) == out.remainder
            &&& out.remainder.len() > 0 ==> chunk_outcome(s, bytes.take(split)).1.remote
                == out.remote
        }),
{
    law_outputs_are_bounded_by_the_chunk(s, bytes);
    if !s.ended && s.enabled {
        match s.modal {
            Some(phase) => {
                lemma_modal_fold(chunk_start(s), phase, bytes);
                assert(bytes.skip(bytes.len() as int) =~= Seq::empty());
            },
            None => lemma_remainder(chunk_start(s), bytes),
        }
    } else {
        assert(bytes.skip(bytes.len() as int) =~= Seq::empty());
    }
}

proof fn lemma_remainder(p: Progress, bytes: Seq<u8>)
    requires
        !p.stopped,
        p.out.remainder.len() == 0,
    ensures
        ({
            let end = fold_bytes(p, None, bytes);
            let split = bytes.len() - end.out.remainder.len();
            &&& 0 <= split
            &&& bytes.skip(split) == end.out.remainder
            &&& end.out.remainder.len() > 0 ==> fold_bytes(
                p,
                None,
                bytes.take(split),
            ).out.remote == end.out.remote
        }),
    decreases bytes.len(),
{
    if bytes.len() == 0 {
        assert(bytes.skip(0) =~= p.out.remainder);
    } else {
        let rest = bytes.skip(1);
        let next = pass_through_byte(p, bytes[0], rest);
        assert(fold_bytes(p, None, bytes) == fold_bytes(next, None, rest));
        if next.stopped {
            assert(fold_bytes(next, None, rest) == next);
            if bytes[0] == UPLOAD_SELECTOR || bytes[0] == DOWNLOAD_SELECTOR {
                assert(next.out.remainder =~= rest);
                let head = bytes.take(1);
                assert(head.skip(1) =~= Seq::empty());
                let short = pass_through_byte(p, bytes[0], head.skip(1));
                assert(head[0] == bytes[0]);
                assert(fold_bytes(p, None, head) == fold_bytes(short, None, head.skip(1)));
                assert(fold_bytes(short, None, head.skip(1)) == short);
            } else {
                assert(bytes.skip(bytes.len() as int) =~= next.out.remainder);
            }
        } else {
            lemma_remainder(next, rest);
            let end = fold_bytes(next, None, rest);
            let split = bytes.len() - end.out.remainder.len();
            assert(bytes.skip(split) =~= rest.skip(split - 1));
            if end.out.remainder.len() > 0 {
                if split == 0 {
                    lemma_pass_fold_sizes(next, rest);
                } else {
                    let head = bytes.take(split);
                    assert(head.skip(1) =~= rest.take(split - 1));
                    assert(head[0] == bytes[0]);
                    let short = pass_through_byte(p, bytes[0], head.skip(1));
                    assert(short == next);
                    assert(fold_bytes(p, None, head) == fold_bytes(short, None, head.skip(1)));
                }
            }
        }
    }
}

/// Leaving a file operation makes the machine what a new pass-through machine
/// is, whatever prefix was abandoned: the next byte is read as if no prefix
/// had come before it.
pub proof fn law_an_abandoned_prefix_does_not_carry(s: ControlView, bytes: Seq<u8>)
    requires
        s.valid(),
        !s.ended,
    ensures
        ({
            let left = ControlView {
                modal: None,
                transfer_bell_emitted: false,
                pending_prefix: false,
                ..s
            };
            &&& left == ControlView::initial(s.enabled, None)
            &&& chunk_outcome(left, bytes) == chunk_outcome(
                ControlView::initial(s.enabled, None),
                bytes,
            )
        }),
{
}

/// Two outcomes that say the same are the same value, unused bytes included.
pub proof fn law_equal_outcomes_are_the_same_value(a: ProcessedInput, b: ProcessedInput)
    requires
        a.padded() && a.marked(),
        b.padded() && b.marked(),
        a@ == b@,
    ensures
        a == b,
{
    lemma_equal_contents(a.remote_bytes.0, b.remote_bytes.0);
    lemma_equal_contents(a.path_bytes.0, b.path_bytes.0);
    lemma_equal_contents(a.remainder.0, b.remainder.0);
}

/// How input is cut into chunks does not matter: two chunks do what their
/// bytes do in one chunk. The bytes for the remote terminal and for the file
/// operation come in the same order, the last local event is the same, and the
/// machine ends in the same state.
///
/// There are two limits. A chunk that starts a file operation hands the rest of
/// its bytes over unread, so the next chunk must hold no reserved byte. And a
/// chunk that cancels one drops the rest of its bytes unread, so the next chunk
/// must be without effect.
pub proof fn law_chunk_boundaries_do_not_matter(s: ControlView, a: Seq<u8>, b: Seq<u8>)
    requires
        s.valid(),
        starts_operation(chunk_outcome(s, a).1.action) && chunk_outcome(s, a).0.modal != s.modal
            ==> unreserved(b),
        s.modal is Some && chunk_outcome(s, a).1.action == LocalAction::CancelOp
            ==> chunk_outcome(chunk_outcome(s, a).0, b) == (
            chunk_outcome(s, a).0,
            OutcomeView::nothing(),
        ),
    ensures
        ({
            let (between, first) = chunk_outcome(s, a);
            let (end, second) = chunk_outcome(between, b);
            let (whole_end, whole) = chunk_outcome(s, a + b);
            let both = first.followed_by(second);
            &&& whole_end == end
            &&& whole.remote == both.remote
            &&& whole.action == both.action
            &&& whole.operation_input() == first.operation_input() + second.operation_input()
        }),
{
    let (between, first) = chunk_outcome(s, a);
    let (end, second) = chunk_outcome(between, b);
    let (whole_end, whole) = chunk_outcome(s, a + b);
    if s.ended {
        assert(whole.remote =~= first.remote + second.remote);
        assert(whole.operation_input() =~= first.operation_input() + second.operation_input());
    } else if !s.enabled {
        assert(whole.remote =~= first.remote + second.remote);
        assert(whole.operation_input() =~= first.operation_input() + second.operation_input());
    } else {
        let start = chunk_start(s);
        let middle = fold_bytes(start, s.modal, a);
        lemma_fold_append(start, s.modal, a, b);
        lemma_fold_shape(start, s.modal, a);
        if !middle.stopped {
            assert(between.modal == s.modal);
            lemma_fold_frame(middle, s.modal, b);
            assert(chunk_start(between) == Progress { out: OutcomeView::nothing(), ..middle });
            let next = fold_bytes(chunk_start(between), s.modal, b);
            assert(whole == first.followed_by(second));
            match s.modal {
                Some(phase) => {
                    lemma_modal_fold(start, phase, a);
                    lemma_modal_fold(chunk_start(between), phase, b);
                    assert(whole.operation_input() =~= first.operation_input()
                        + second.operation_input());
                },
                None => {
                    lemma_pass_fold_sizes(start, a);
                    lemma_pass_fold_sizes(chunk_start(between), b);
                    lemma_running_fold_has_no_remainder(start, a);
                    assert(whole.operation_input() =~= first.operation_input()
                        + second.operation_input());
                },
            }
        } else if first.action == LocalAction::Detach && between.ended {
            assert(whole.remote =~= first.remote + second.remote);
            assert(whole.operation_input() =~= first.operation_input() + second.operation_input());
        } else if s.modal is None {
            let phase = between.modal->0;
            lemma_fold_prompt(chunk_start(between), phase, b);
            lemma_pass_fold_sizes(start, a);
            assert(second.path =~= b);
            assert(whole.remote =~= first.remote + second.remote);
            assert(whole.operation_input() =~= first.operation_input() + second.operation_input());
        } else {
            assert(whole.remote =~= first.remote + second.remote);
            assert(whole.operation_input() =~= first.operation_input() + second.operation_input());
        }
    }
}

proof fn lemma_running_fold_has_no_remainder(p: Progress, bytes: Seq<u8>)
    requires
        !p.stopped,
        p.out.remainder.len() == 0,
        !fold_bytes(p, None, bytes).stopped,
    ensures
        fold_bytes(p, None, bytes).out.remainder.len() == 0,
    decreases bytes.len(),
{
    if bytes.len() > 0 {
        let next = pass_through_byte(p, bytes[0], bytes.skip(1));
        if next.stopped {
            assert(fold_bytes(next, None, bytes.skip(1)) == next);
        } else {
            lemma_running_fold_has_no_remainder(next, bytes.skip(1));
        }
    }
}

/// Reading one byte.
proof fn lemma_single(s: ControlView, byte: u8)
    requires
        s.enabled,
        !s.ended,
    ensures
        ({
            let end = chunk_byte(chunk_start(s), s.modal, byte, Seq::empty());
            chunk_outcome(s, seq![byte]) == (end.state, end.out)
        }),
{
    let bytes = seq![byte];
    let end = chunk_byte(chunk_start(s), s.modal, byte, Seq::empty());
    assert(bytes.skip(1) =~= Seq::<u8>::empty());
    assert(fold_bytes(chunk_start(s), s.modal, bytes) == fold_bytes(end, s.modal, bytes.skip(1)));
}

/// What each byte does in pass-through. Without a prefix `Ctrl+]` is held back and
/// everything else goes to the remote terminal. Behind a prefix `.` detaches, `u` and
/// `d` start an operation at its prompt, `?` asks for help, and anything else goes to
/// the remote terminal, together with the prefix unless it is a second `Ctrl+]`.
pub proof fn law_what_a_byte_does_in_pass_through(s: ControlView, byte: u8)
    requires
        s.enabled,
        !s.ended,
        s.modal is None,
    ensures
        ({
            let (next, out) = chunk_outcome(s, seq![byte]);
            &&& out.path == Seq::<u8>::empty()
            &&& out.remainder == Seq::<u8>::empty()
            &&& next.enabled
            &&& next.pending_prefix <==> !s.pending_prefix && byte == 0x1d
            &&& out.remote == if !s.pending_prefix {
                if byte == 0x1d {
                    Seq::<u8>::empty()
                } else {
                    seq![byte]
                }
            } else if byte == 0x2e || byte == 0x75 || byte == 0x64 || byte == 0x3f {
                Seq::<u8>::empty()
            } else if byte == 0x1d {
                seq![0x1d]
            } else {
                seq![0x1d, byte]
            }
            &&& out.action == LocalAction::Detach <==> s.pending_prefix && byte == 0x2e
            &&& out.action == LocalAction::StartUpload <==> s.pending_prefix && byte == 0x75
            &&& out.action == LocalAction::StartDownload <==> s.pending_prefix && byte == 0x64
            &&& out.action == LocalAction::ShowHelp <==> s.pending_prefix && byte == 0x3f
            &&& out.action != LocalAction::NoAction ==> s.pending_prefix && (byte == 0x2e || byte
                == 0x75 || byte == 0x64 || byte == 0x3f)
            &&& next.ended <==> out.action == LocalAction::Detach
            &&& next.modal == if out.action == LocalAction::StartUpload {
                Some(ModalPhase::UploadPrompt)
            } else if out.action == LocalAction::StartDownload {
                Some(ModalPhase::DownloadPrompt)
            } else {
                None
            }
            &&& next.modal is Some ==> !next.transfer_bell_emitted
            &&& next.modal is None ==> next.transfer_bell_emitted == s.transfer_bell_emitted
        }),
{
    lemma_single(s, byte);
    let (next, out) = chunk_outcome(s, seq![byte]);
    assert(out.remainder =~= Seq::<u8>::empty());
    if !s.pending_prefix && byte != 0x1d {
        assert(out.remote =~= seq![byte]);
    } else if s.pending_prefix && byte == 0x1d {
        assert(out.remote =~= seq![0x1du8]);
    } else if s.pending_prefix && byte != 0x2e && byte != 0x75 && byte != 0x64 && byte != 0x3f {
        assert(out.remote =~= seq![0x1du8, byte]);
    }
}

/// What each byte does while a file operation is active, in whichever phase. Without a
/// prefix `Ctrl+]` is held back, `Ctrl+C` cancels, and everything else is path input at
/// a prompt and dropped during a transfer, with one bell. Behind a prefix `.` detaches,
/// `?` asks for help, `u` and `d` are refused, and anything else rings the bell.
pub proof fn law_what_a_byte_does_during_an_operation(s: ControlView, phase: ModalPhase, byte: u8)
    requires
        s.enabled,
        !s.ended,
        s.modal == Some(phase),
    ensures
        ({
            let (next, out) = chunk_outcome(s, seq![byte]);
            let plain = !s.pending_prefix && byte != 0x1d && byte != 0x03;
            let first = phase == ModalPhase::Transferring && plain && !s.transfer_bell_emitted;
            &&& out.remote == Seq::<u8>::empty()
            &&& out.remainder == Seq::<u8>::empty()
            &&& out.path == if plain && phase != ModalPhase::Transferring {
                seq![byte]
            } else {
                Seq::<u8>::empty()
            }
            &&& out.action == LocalAction::CancelOp <==> !s.pending_prefix && byte == 0x03
            &&& out.action == LocalAction::Detach <==> s.pending_prefix && byte == 0x2e
            &&& out.action == LocalAction::ShowHelp <==> s.pending_prefix && byte == 0x3f
            &&& out.action == LocalAction::AlreadyActive <==> s.pending_prefix && (byte == 0x75
                || byte == 0x64)
            &&& out.action == LocalAction::Bell <==> first || (s.pending_prefix && byte != 0x2e
                && byte != 0x3f && byte != 0x75 && byte != 0x64)
            &&& out.action != LocalAction::StartUpload && out.action != LocalAction::StartDownload
            &&& next.enabled
            &&& next.ended <==> s.pending_prefix && byte == 0x2e
            &&& next.pending_prefix <==> !s.pending_prefix && byte == 0x1d
            &&& next.modal == if next.ended {
                None
            } else {
                Some(phase)
            }
            &&& next.transfer_bell_emitted <==> s.transfer_bell_emitted || first
        }),
{
    lemma_single(s, byte);
    let (next, out) = chunk_outcome(s, seq![byte]);
    if !s.pending_prefix && byte != 0x1d && byte != 0x03 && phase != ModalPhase::Transferring {
        assert(out.path =~= seq![byte]);
    }
}

/// Unreserved bytes leave an operation running: they are path input at a prompt, and
/// nothing during a transfer.
proof fn lemma_fold_unreserved(p: Progress, phase: ModalPhase, bytes: Seq<u8>)
    requires
        !p.stopped,
        !p.state.pending_prefix,
        forall|i: int| 0 <= i < bytes.len() ==> #[trigger] bytes[i] != 0x1d && bytes[i] != 0x03,
    ensures
        ({
            let end = fold_bytes(p, Some(phase), bytes);
            &&& !end.stopped
            &&& end.state == (ControlView {
                transfer_bell_emitted: end.state.transfer_bell_emitted,
                ..p.state
            })
            &&& end.out.remote == p.out.remote
            &&& end.out.remainder == p.out.remainder
            &&& end.out.path == if phase == ModalPhase::Transferring {
                p.out.path
            } else {
                p.out.path + bytes
            }
        }),
    decreases bytes.len(),
{
    if bytes.len() == 0 {
        assert(p.out.path + bytes =~= p.out.path);
    } else {
        let rest = bytes.skip(1);
        let next = modal_byte(p, phase, bytes[0]);
        assert forall|i: int| 0 <= i < rest.len() implies #[trigger] rest[i] != 0x1d && rest[i]
            != 0x03 by {
            assert(rest[i] == bytes[i + 1]);
        }
        lemma_fold_unreserved(next, phase, rest);
        assert(p.out.path.push(bytes[0]) + rest =~= p.out.path + bytes);
    }
}

/// `Ctrl+C` cancels an operation in every phase, wherever in a chunk it stands: what was
/// typed before it still counts, what stands behind it does not, and the machine is left
/// as the bytes before it left it.
pub proof fn law_cancelling_works_in_every_phase(
    s: ControlView,
    before: Seq<u8>,
    behind: Seq<u8>,
)
    requires
        s.valid(),
        s.modal is Some,
        !s.pending_prefix,
        forall|i: int| 0 <= i < before.len() ==> #[trigger] before[i] != 0x1d && before[i] != 0x03,
    ensures
        ({
            let (next, out) = chunk_outcome(s, before + seq![0x03] + behind);
            &&& out.action == LocalAction::CancelOp
            &&& out.remote == Seq::<u8>::empty()
            &&& out.remainder == Seq::<u8>::empty()
            &&& out.path == if s.modal == Some(ModalPhase::Transferring) {
                Seq::<u8>::empty()
            } else {
                before
            }
            &&& next == chunk_outcome(s, before).0
            &&& next.modal == s.modal
            &&& !next.pending_prefix
            &&& !next.ended
        }),
{
    let phase = s.modal->0;
    let start = chunk_start(s);
    let tail = seq![0x03u8] + behind;
    lemma_fold_unreserved(start, phase, before);
    lemma_fold_append(start, s.modal, before, tail);
    assert(before + seq![0x03u8] + behind =~= before + tail);
    let middle = fold_bytes(start, s.modal, before);
    let end = modal_byte(middle, phase, tail[0]);
    assert(fold_bytes(middle, s.modal, tail) == fold_bytes(end, s.modal, tail.skip(1)));
    assert(end.stopped);
    assert(Seq::<u8>::empty() + before =~= before);
}

/// `Ctrl+] .` ends the session in every phase and in pass-through, wherever in a chunk
/// it stands: what was typed before it still counts, and what stands behind it does not.
pub proof fn law_detaching_works_everywhere(s: ControlView, before: Seq<u8>, behind: Seq<u8>)
    requires
        s.valid(),
        s.enabled,
        !s.ended,
        !s.pending_prefix,
        forall|i: int|
            0 <= i < before.len() ==> #[trigger] before[i] != 0x1d && (s.modal is Some ==> before[i]
                != 0x03),
    ensures
        ({
            let (next, out) = chunk_outcome(s, before + seq![0x1d, 0x2e] + behind);
            &&& out.action == LocalAction::Detach
            &&& next.ended
            &&& !next.pending_prefix
            &&& next.modal is None
            &&& out.remainder == Seq::<u8>::empty()
            &&& out.remote == if s.modal is None {
                before
            } else {
                Seq::<u8>::empty()
            }
            &&& out.path == if s.modal is None || s.modal == Some(ModalPhase::Transferring) {
                Seq::<u8>::empty()
            } else {
                before
            }
        }),
{
    let start = chunk_start(s);
    let tail = seq![0x1du8, 0x2e] + behind;
    match s.modal {
        Some(phase) => lemma_fold_unreserved(start, phase, before),
        None => {
            assert forall|i: int| 0 <= i < before.len() implies before[i] != LOCAL_ESCAPE by {}
            lemma_plain_fold(start, before);
        },
    }
    lemma_fold_append(start, s.modal, before, tail);
    assert(before + seq![0x1du8, 0x2e] + behind =~= before + tail);
    let middle = fold_bytes(start, s.modal, before);
    let held = chunk_byte(middle, s.modal, tail[0], tail.skip(1));
    let end = chunk_byte(held, s.modal, tail.skip(1)[0], tail.skip(1).skip(1));
    assert(fold_bytes(middle, s.modal, tail) == fold_bytes(held, s.modal, tail.skip(1)));
    assert(fold_bytes(held, s.modal, tail.skip(1)) == fold_bytes(
        end,
        s.modal,
        tail.skip(1).skip(1),
    ));
    assert(end.stopped);
    assert(Seq::<u8>::empty() + before =~= before);
}

/// `Ctrl+] u` and `Ctrl+] d` open the prompt of an upload and of a download: what was
/// typed before goes to the remote terminal, and the rest of the chunk, whatever it
/// holds, is handed to the operation.
pub proof fn law_starting_an_operation_hands_over_the_rest(
    s: ControlView,
    before: Seq<u8>,
    selector: u8,
    behind: Seq<u8>,
)
    requires
        s.enabled,
        !s.ended,
        !s.pending_prefix,
        s.modal is None,
        forall|i: int| 0 <= i < before.len() ==> #[trigger] before[i] != 0x1d,
        selector == 0x75 || selector == 0x64,
    ensures
        ({
            let (next, out) = chunk_outcome(s, before + seq![0x1d, selector] + behind);
            &&& out.remote == before
            &&& out.remainder == behind
            &&& out.path == Seq::<u8>::empty()
            &&& selector == 0x75 ==> out.action == LocalAction::StartUpload && next.modal == Some(
                ModalPhase::UploadPrompt,
            )
            &&& selector == 0x64 ==> out.action == LocalAction::StartDownload && next.modal == Some(
                ModalPhase::DownloadPrompt,
            )
            &&& !next.ended && !next.pending_prefix && !next.transfer_bell_emitted
        }),
{
    let start = chunk_start(s);
    let tail = seq![0x1du8, selector] + behind;
    assert forall|i: int| 0 <= i < before.len() implies before[i] != LOCAL_ESCAPE by {}
    lemma_plain_fold(start, before);
    lemma_fold_append(start, s.modal, before, tail);
    assert(before + seq![0x1du8, selector] + behind =~= before + tail);
    let middle = fold_bytes(start, s.modal, before);
    let held = chunk_byte(middle, s.modal, tail[0], tail.skip(1));
    let end = chunk_byte(held, s.modal, tail.skip(1)[0], tail.skip(1).skip(1));
    assert(tail.skip(1).skip(1) =~= behind);
    assert(fold_bytes(middle, s.modal, tail) == fold_bytes(held, s.modal, tail.skip(1)));
    assert(fold_bytes(held, s.modal, tail.skip(1)) == fold_bytes(
        end,
        s.modal,
        tail.skip(1).skip(1),
    ));
    assert(end.stopped);
    assert(end.out.remainder =~= behind);
    assert(end.out.remote =~= before);
}

/// The end of the input gives a prefix that was held back to the remote terminal, or
/// rings the bell for it while an operation is active; without one it does nothing.
pub proof fn law_the_end_of_input_settles_the_prefix(s: ControlView)
    requires
        s.valid(),
    ensures
        ({
            let (next, out) = finish_outcome(s);
            &&& next == (ControlView { pending_prefix: false, ..s })
            &&& out.path == Seq::<u8>::empty()
            &&& out.remainder == Seq::<u8>::empty()
            &&& out.remote == if s.pending_prefix && s.modal is None {
                seq![0x1d]
            } else {
                Seq::<u8>::empty()
            }
            &&& out.action == LocalAction::Bell <==> s.pending_prefix && s.modal is Some
            &&& out.action == LocalAction::NoAction <==> !(s.pending_prefix && s.modal is Some)
        }),
{
    if s.pending_prefix && s.modal is None {
        assert(finish_outcome(s).1.remote =~= seq![0x1du8]);
    }
}

/// A machine begins as it is asked to: it is modal only if it is enabled, and nothing is
/// held back.
pub proof fn law_a_machine_begins_clean(enabled: bool, modal: Option<ModalPhase>)
    ensures
        ({
            let s = ControlView::initial(enabled, modal);
            &&& s.valid()
            &&& s.enabled == enabled && !s.ended && !s.pending_prefix && !s.transfer_bell_emitted
            &&& enabled ==> s.modal == modal
            &&& !enabled ==> s.modal is None
        }),
{
}

/// Starting a phase of an operation keeps everything but the phase, and lets the next
/// transfer ring its bell.
pub proof fn law_a_phase_begins_with_its_bell_unrung(s: ControlView, phase: ModalPhase)
    ensures
        s.prompting(phase) == (ControlView {
            modal: Some(phase),
            transfer_bell_emitted: false,
            ..s
        }),
{
}

} // verus!
