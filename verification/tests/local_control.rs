use yon::local_control::{
    LocalAction, LocalControlError, LocalControlInput, LocalInputChunk, ModalPhase, ProcessedInput,
    CANCEL_BYTE, INPUT_CAPACITY, LOCAL_ESCAPE, REMOTE_CAPACITY,
};

fn chunk(bytes: &[u8]) -> LocalInputChunk {
    let mut input = LocalInputChunk::new();
    input.writable()[..bytes.len()].copy_from_slice(bytes);
    input.set_len(bytes.len()).unwrap();
    input
}

#[test]
fn passthrough_is_byte_exact_and_binary_safe() {
    let mut machine = LocalControlInput::new(true, false);
    let out = machine.process(chunk(b"hello world"));
    assert_eq!(out.remote_bytes.as_slice(), b"hello world");
    assert_eq!(out.action, LocalAction::NoAction);
    assert!(out.path_bytes.is_empty());
    assert!(out.remainder.is_empty());
    assert!(!out.drop_remainder);
    assert_eq!(machine.modal_phase(), None);

    let binary = [0x00, 0x01, 0x7f, 0xff, 0x0a, 0x1b, 0x1c, 0x1e];
    let out = machine.process(chunk(&binary));
    assert_eq!(out.remote_bytes.as_slice(), &binary);
    assert_eq!(out.action, LocalAction::NoAction);

    // Ctrl+C in pass-through is an ordinary byte and is forwarded.
    let out = machine.process(chunk(b"ab\x03cd"));
    assert_eq!(out.remote_bytes.as_slice(), b"ab\x03cd");

    // An empty chunk is a no-op.
    let out = machine.process(chunk(b""));
    assert!(out.remote_bytes.is_empty());
    assert_eq!(out.action, LocalAction::NoAction);
}

#[test]
fn prefix_dot_detaches_and_ends_the_machine() {
    let mut machine = LocalControlInput::new(true, false);
    let out = machine.process(chunk(b"\x1d.abc"));
    assert_eq!(out.action, LocalAction::Detach);
    assert!(out.remote_bytes.is_empty());
    assert!(out.remainder.is_empty());
    assert!(!out.drop_remainder);
    assert!(machine.ended());
    assert_eq!(machine.modal_phase(), None);

    // The machine is terminal: further input yields nothing.
    let out = machine.process(chunk(b"xyz"));
    assert!(out.remote_bytes.is_empty());
    assert_eq!(out.action, LocalAction::NoAction);
    assert!(machine.finish().remote_bytes.is_empty());

    // Modal detach ends the session the same way.
    let mut modal = LocalControlInput::new(true, true);
    let out = modal.process(chunk(b"\x1d.xy"));
    assert_eq!(out.action, LocalAction::Detach);
    assert!(out.remote_bytes.is_empty());
    assert!(out.path_bytes.is_empty());
    assert!(modal.ended());
}

#[test]
fn prefix_double_escape_sends_a_literal_escape() {
    let mut machine = LocalControlInput::new(true, false);
    let out = machine.process(chunk(b"\x1d\x1d"));
    assert_eq!(out.remote_bytes.as_slice(), b"\x1d");
    assert_eq!(out.action, LocalAction::NoAction);
    assert_eq!(machine.modal_phase(), None);
    assert!(!machine.pending_prefix());

    // The rest of the chunk is forwarded normally.
    let out = machine.process(chunk(b"\x1d\x1dabc"));
    assert_eq!(out.remote_bytes.as_slice(), b"\x1dabc");
    assert_eq!(out.action, LocalAction::NoAction);

    // Three escapes: one literal plus one pending prefix.
    let out = machine.process(chunk(b"\x1d\x1d\x1d"));
    assert_eq!(out.remote_bytes.as_slice(), b"\x1d");
    assert!(machine.pending_prefix());
}

#[test]
fn prefix_u_starts_upload_and_hands_remainder_to_the_local_operation() {
    let mut machine = LocalControlInput::new(true, false);
    let out = machine.process(chunk(b"\x1duabc"));
    assert_eq!(out.action, LocalAction::StartUpload);
    assert!(out.remote_bytes.is_empty());
    assert!(out.path_bytes.is_empty());
    assert_eq!(out.remainder.as_slice(), b"abc");
    assert!(out.drop_remainder);
    assert_eq!(machine.modal_phase(), Some(ModalPhase::UploadPrompt));

    // The modal context continues across the next chunks.
    let out = machine.process(chunk(b"def"));
    assert_eq!(out.path_bytes.as_slice(), b"def");
    assert!(out.remote_bytes.is_empty());
}

#[test]
fn prefix_d_starts_download_and_hands_remainder() {
    let mut machine = LocalControlInput::new(true, false);
    let out = machine.process(chunk(b"\x1ddabc"));
    assert_eq!(out.action, LocalAction::StartDownload);
    assert!(out.remote_bytes.is_empty());
    assert_eq!(out.remainder.as_slice(), b"abc");
    assert!(out.drop_remainder);
    assert_eq!(machine.modal_phase(), Some(ModalPhase::DownloadPrompt));
}

#[test]
fn prefix_u_without_remainder_has_no_drop() {
    let mut machine = LocalControlInput::new(true, false);
    let out = machine.process(chunk(b"\x1du"));
    assert_eq!(out.action, LocalAction::StartUpload);
    assert!(out.remainder.is_empty());
    assert!(!out.drop_remainder);
    assert_eq!(machine.modal_phase(), Some(ModalPhase::UploadPrompt));
}

#[test]
fn prefix_question_shows_help_and_resumes_forwarding() {
    let mut machine = LocalControlInput::new(true, false);
    let out = machine.process(chunk(b"\x1d?xy"));
    assert_eq!(out.action, LocalAction::ShowHelp);
    assert_eq!(out.remote_bytes.as_slice(), b"xy");
    assert!(out.remainder.is_empty());
    assert!(!out.drop_remainder);
    assert_eq!(machine.modal_phase(), None);

    // Pass-through continues after the help.
    let out = machine.process(chunk(b"z"));
    assert_eq!(out.remote_bytes.as_slice(), b"z");

    // Help mid-chunk leaves later prefixes intact.
    let out = machine.process(chunk(b"ab\x1d?xy"));
    assert_eq!(out.action, LocalAction::ShowHelp);
    assert_eq!(out.remote_bytes.as_slice(), b"abxy");
}

#[test]
fn uppercase_and_unknown_selectors_are_forwarded_transparently() {
    for selector in [b'U', b'D', b'X', b' ', b'0', 0x00, 0x7f, 0xff, b'\n', b'-'] {
        let mut machine = LocalControlInput::new(true, false);
        let out = machine.process(chunk(&[LOCAL_ESCAPE, selector]));
        assert_eq!(
            out.remote_bytes.as_slice(),
            &[LOCAL_ESCAPE, selector],
            "selector {selector:02x}"
        );
        assert_eq!(out.action, LocalAction::NoAction);
        assert_eq!(machine.modal_phase(), None);
        assert!(!machine.pending_prefix());
    }
}

#[test]
fn prefix_and_selector_span_chunk_boundaries() {
    let cases: &[(&[u8], LocalAction, Option<ModalPhase>)] = &[
        (b".", LocalAction::Detach, None),
        (b"\x1d", LocalAction::NoAction, None),
        (b"u", LocalAction::StartUpload, Some(ModalPhase::UploadPrompt)),
        (
            b"d",
            LocalAction::StartDownload,
            Some(ModalPhase::DownloadPrompt),
        ),
        (b"?", LocalAction::ShowHelp, None),
        (b"U", LocalAction::NoAction, None),
    ];
    for (selector, action, phase) in cases {
        let mut machine = LocalControlInput::new(true, false);
        let first = machine.process(chunk(b"\x1d"));
        assert!(first.remote_bytes.is_empty());
        assert!(machine.pending_prefix());
        let second = machine.process(chunk(selector));
        assert_eq!(second.action, *action, "selector {selector:?}");
        assert_eq!(machine.modal_phase(), *phase, "selector {selector:?}");
        match *selector {
            b"\x1d" => assert_eq!(second.remote_bytes.as_slice(), b"\x1d"),
            b"U" => assert_eq!(second.remote_bytes.as_slice(), b"\x1dU"),
            _ => assert!(second.remote_bytes.is_empty()),
        }
        assert!(second.remainder.is_empty());
        assert!(!second.drop_remainder);
    }
}

#[test]
fn selector_in_a_later_chunk_keeps_remainder_semantics() {
    let mut machine = LocalControlInput::new(true, false);
    let first = machine.process(chunk(b"ab\x1d"));
    assert_eq!(first.remote_bytes.as_slice(), b"ab");
    assert!(machine.pending_prefix());
    let second = machine.process(chunk(b"uabc"));
    assert_eq!(second.action, LocalAction::StartUpload);
    assert!(second.remote_bytes.is_empty());
    assert_eq!(second.remainder.as_slice(), b"abc");
    assert!(second.drop_remainder);
    assert_eq!(machine.modal_phase(), Some(ModalPhase::UploadPrompt));

    // The modal continues: further input is path input.
    let third = machine.process(chunk(b"def"));
    assert_eq!(third.path_bytes.as_slice(), b"def");
    assert!(third.remote_bytes.is_empty());
}

#[test]
fn empty_chunks_do_not_resolve_a_pending_prefix() {
    let mut machine = LocalControlInput::new(true, false);
    let out = machine.process(chunk(b"\x1d"));
    assert!(out.remote_bytes.is_empty());
    let mid = machine.process(chunk(b""));
    assert!(mid.remote_bytes.is_empty());
    assert_eq!(mid.action, LocalAction::NoAction);
    assert!(machine.pending_prefix());
    let second = machine.process(chunk(b"."));
    assert_eq!(second.action, LocalAction::Detach);
}

#[test]
fn remainder_never_replays_to_the_remote() {
    let mut machine = LocalControlInput::new(true, false);
    let out = machine.process(chunk(b"\x1duabc"));
    assert_eq!(out.remainder.as_slice(), b"abc");
    assert!(out.drop_remainder);
    assert_eq!(out.action, LocalAction::StartUpload);

    // While the operation is active the remainder never reappears: later
    // chunks are modal input, not a replay of the remainder.
    let next = machine.process(chunk(b"x"));
    assert_eq!(next.path_bytes.as_slice(), b"x");
    assert!(next.remote_bytes.is_empty());
    assert!(next.remainder.is_empty());

    // Simulated termination: the coordinator discards the unconsumed
    // remainder (the drop_remainder path) and leaves the modal state.
    assert_eq!(machine.leave_modal(), LocalAction::NoAction);
    assert_eq!(machine.modal_phase(), None);
    let after = machine.process(chunk(b"abc"));
    assert_eq!(after.remote_bytes.as_slice(), b"abc");
    assert!(!after.drop_remainder);

    // The same drop path with prefix input following the termination.
    let mut machine = LocalControlInput::new(true, false);
    let out = machine.process(chunk(b"\x1duabc"));
    assert_eq!(out.remainder.as_slice(), b"abc");
    assert_eq!(machine.leave_modal(), LocalAction::NoAction);
    let out = machine.process(chunk(b"\x1dU"));
    assert_eq!(out.remote_bytes.as_slice(), b"\x1dU");
    let out = machine.process(chunk(b"z"));
    assert_eq!(out.remote_bytes.as_slice(), b"z");
}

#[test]
fn drop_remainder_flag_marks_every_remainder() {
    for bytes in [
        b"\x1du".as_slice(),
        b"\x1d".as_slice(),
        b"\x1dux".as_slice(),
        b"\x1d.".as_slice(),
        b"ab".as_slice(),
        b"\x1d?".as_slice(),
        b"\x1ddxyz".as_slice(),
    ] {
        let mut machine = LocalControlInput::new(true, false);
        let out = machine.process(chunk(bytes));
        assert_eq!(
            out.drop_remainder,
            !out.remainder.is_empty(),
            "input {bytes:?}"
        );
    }
}

#[test]
fn modal_prompt_text_becomes_path_input() {
    let mut machine = LocalControlInput::new(true, false);
    let started = machine.process(chunk(b"\x1du"));
    assert_eq!(started.action, LocalAction::StartUpload);
    let out = machine.process(chunk(b"hello world"));
    assert_eq!(out.path_bytes.as_slice(), b"hello world");
    assert!(out.remote_bytes.is_empty());
    assert_eq!(out.action, LocalAction::NoAction);
    assert_eq!(machine.modal_phase(), Some(ModalPhase::UploadPrompt));
}

#[test]
fn modal_prompt_passes_editing_control_bytes_to_the_editor() {
    // Only the reserved bytes (Ctrl+], Ctrl+C) are intercepted; editor
    // control bytes (ESC, backspace, DEL, Enter) reach the path editor.
    let mut machine = LocalControlInput::new(true, true);
    let out = machine.process(chunk(&[0x1b, 0x08, 0x7f, b'a', 0x0d]));
    assert_eq!(out.path_bytes.as_slice(), &[0x1b, 0x08, 0x7f, b'a', 0x0d]);
    assert!(out.remote_bytes.is_empty());
}

#[test]
fn modal_prefix_dot_detaches_the_session() {
    let mut machine = LocalControlInput::new(true, true);
    let out = machine.process(chunk(b"\x1d."));
    assert_eq!(out.action, LocalAction::Detach);
    assert!(out.remote_bytes.is_empty());
    assert!(out.path_bytes.is_empty());
    assert!(machine.ended());
}

#[test]
fn modal_prefix_question_keeps_the_modal_phase() {
    let mut machine = LocalControlInput::new(true, true);
    let out = machine.process(chunk(b"\x1d?xy"));
    assert_eq!(out.action, LocalAction::ShowHelp);
    assert_eq!(out.path_bytes.as_slice(), b"xy");
    assert_eq!(machine.modal_phase(), Some(ModalPhase::UploadPrompt));

    // The selector may arrive in the next chunk.
    let mut machine = LocalControlInput::new(true, true);
    let first = machine.process(chunk(b"\x1d"));
    assert!(first.remote_bytes.is_empty());
    let second = machine.process(chunk(b"?z"));
    assert_eq!(second.action, LocalAction::ShowHelp);
    assert_eq!(second.path_bytes.as_slice(), b"z");
    assert_eq!(machine.modal_phase(), Some(ModalPhase::UploadPrompt));
}

#[test]
fn modal_repeated_u_or_d_is_already_active() {
    for selector in b"ud" {
        let mut machine = LocalControlInput::new(true, true);
        let out = machine.process(chunk(&[LOCAL_ESCAPE, *selector, b'x']));
        assert_eq!(out.action, LocalAction::AlreadyActive);
        assert!(out.remote_bytes.is_empty());
        assert_eq!(out.path_bytes.as_slice(), b"x");
        assert_eq!(machine.modal_phase(), Some(ModalPhase::UploadPrompt));
    }
}

#[test]
fn modal_unknown_selectors_and_double_escape_ring_the_bell() {
    for selector in [b'U', b'D', b'X', b' ', 0x00, 0xff, LOCAL_ESCAPE] {
        let mut machine = LocalControlInput::new(true, true);
        let out = machine.process(chunk(&[LOCAL_ESCAPE, selector]));
        assert_eq!(out.action, LocalAction::Bell, "selector {selector:02x}");
        assert!(out.remote_bytes.is_empty());
        assert!(out.path_bytes.is_empty());
        assert_eq!(machine.modal_phase(), Some(ModalPhase::UploadPrompt));
        // The ignored prefix is not repeated: next input is path input.
        let next = machine.process(chunk(b"z"));
        assert_eq!(next.path_bytes.as_slice(), b"z");
        assert_eq!(next.action, LocalAction::NoAction);
    }
}

#[test]
fn modal_ctrl_c_cancels_without_forwarding() {
    let mut machine = LocalControlInput::new(true, true);
    let out = machine.process(chunk(&[CANCEL_BYTE]));
    assert_eq!(out.action, LocalAction::CancelOp);
    assert!(out.remote_bytes.is_empty());
    assert!(out.path_bytes.is_empty());

    // No prefix is needed; the rest of the chunk is dead input for the
    // cancelling operation and is not processed.
    let out = machine.process(chunk(&[b'a', CANCEL_BYTE, b'b']));
    assert_eq!(out.path_bytes.as_slice(), b"a");
    assert_eq!(out.action, LocalAction::CancelOp);
    assert!(out.remote_bytes.is_empty());

    // Ctrl+C also cancels during the transfer phase.
    let mut transfer = LocalControlInput::new(true, true);
    transfer.enter_transfer().unwrap();
    let out = transfer.process(chunk(&[CANCEL_BYTE]));
    assert_eq!(out.action, LocalAction::CancelOp);
    assert!(out.remote_bytes.is_empty());
    assert!(out.path_bytes.is_empty());
}

#[test]
fn transfer_pauses_ordinary_input_with_a_single_bell() {
    let mut machine = LocalControlInput::new(true, false);
    let started = machine.process(chunk(b"\x1du"));
    assert_eq!(started.action, LocalAction::StartUpload);
    machine.enter_transfer().unwrap();
    assert_eq!(machine.modal_phase(), Some(ModalPhase::Transferring));

    let first = machine.process(chunk(b"a"));
    assert_eq!(first.action, LocalAction::Bell);
    assert!(first.remote_bytes.is_empty());
    assert!(first.path_bytes.is_empty());

    let second = machine.process(chunk(b"bc"));
    assert_eq!(second.action, LocalAction::NoAction);
    assert!(second.remote_bytes.is_empty());
    assert!(second.path_bytes.is_empty());

    let third = machine.process(chunk(b"d"));
    assert_eq!(third.action, LocalAction::NoAction);
}

#[test]
fn transfer_prefix_selectors_follow_the_modal_rules() {
    let cases: &[(&[u8], LocalAction)] = &[
        (b"\x1d.", LocalAction::Detach),
        (b"\x1d?", LocalAction::ShowHelp),
        (b"\x1du", LocalAction::AlreadyActive),
        (b"\x1dd", LocalAction::AlreadyActive),
        (b"\x1d\x1d", LocalAction::Bell),
        (b"\x1dX", LocalAction::Bell),
    ];
    for (sequence, expected) in cases {
        let mut machine = LocalControlInput::new(true, false);
        let started = machine.process(chunk(b"\x1du"));
        assert_eq!(started.action, LocalAction::StartUpload);
        machine.enter_transfer().unwrap();
        let out = machine.process(chunk(sequence));
        assert_eq!(out.action, *expected, "sequence {sequence:?}");
        assert!(out.remote_bytes.is_empty());
        assert!(out.path_bytes.is_empty());
    }
}

#[test]
fn transfer_prefix_selector_spanning_chunks() {
    let mut machine = LocalControlInput::new(true, false);
    let started = machine.process(chunk(b"\x1du"));
    assert_eq!(started.action, LocalAction::StartUpload);
    machine.enter_transfer().unwrap();
    let first = machine.process(chunk(b"\x1d"));
    assert_eq!(first.action, LocalAction::NoAction);
    assert!(machine.pending_prefix());
    let second = machine.process(chunk(b"."));
    assert_eq!(second.action, LocalAction::Detach);
    assert!(machine.ended());
}

#[test]
fn eof_flushes_an_orphaned_prefix_in_pass_through() {
    let mut machine = LocalControlInput::new(true, false);
    let out = machine.process(chunk(b"ab\x1d"));
    assert_eq!(out.remote_bytes.as_slice(), b"ab");
    assert!(machine.pending_prefix());
    let eof = machine.finish();
    assert_eq!(eof.remote_bytes.as_slice(), b"\x1d");
    assert_eq!(eof.action, LocalAction::NoAction);
    assert!(!machine.pending_prefix());

    // Clean EOF without a pending prefix produces nothing.
    let mut clean = LocalControlInput::new(true, false);
    assert!(clean.finish().remote_bytes.is_empty());
    assert_eq!(clean.finish().action, LocalAction::NoAction);
}

#[test]
fn eof_bells_an_orphaned_prefix_in_modal() {
    let mut machine = LocalControlInput::new(true, true);
    let out = machine.process(chunk(b"\x1d"));
    assert!(out.remote_bytes.is_empty());
    assert!(machine.pending_prefix());
    let eof = machine.finish();
    assert_eq!(eof.action, LocalAction::Bell);
    assert!(eof.remote_bytes.is_empty());
    assert!(!machine.pending_prefix());

    let mut transfer = LocalControlInput::new(true, true);
    transfer.enter_transfer().unwrap();
    let out = transfer.process(chunk(b"\x1d"));
    assert!(out.remote_bytes.is_empty());
    let eof = transfer.finish();
    assert_eq!(eof.action, LocalAction::Bell);
    assert!(eof.remote_bytes.is_empty());

    // EOF in modal without a pending prefix is silent.
    let mut clean = LocalControlInput::new(true, true);
    assert_eq!(clean.finish().action, LocalAction::NoAction);
}

#[test]
fn disabled_input_is_fully_transparent() {
    for sequence in [
        b"\x1du".as_slice(),
        b"\x1d.".as_slice(),
        b"\x1d\x1d".as_slice(),
        b"\x03".as_slice(),
        b"abc".as_slice(),
        b"\x1d?".as_slice(),
        b"\x1dU".as_slice(),
    ] {
        let mut machine = LocalControlInput::new(false, false);
        let out = machine.process(chunk(sequence));
        assert_eq!(out.remote_bytes.as_slice(), sequence);
        assert_eq!(out.action, LocalAction::NoAction);
        assert!(out.remainder.is_empty());
        assert!(out.path_bytes.is_empty());
        assert!(!out.drop_remainder);
        assert_eq!(machine.modal_phase(), None);
    }
    let mut machine = LocalControlInput::new(false, false);
    assert!(machine.finish().remote_bytes.is_empty());
    assert_eq!(machine.finish().action, LocalAction::NoAction);
    assert!(!machine.pending_prefix());

    // The modal flag is ignored when disabled.
    let mut modal_arg = LocalControlInput::new(false, true);
    assert_eq!(modal_arg.modal_phase(), None);
    let out = modal_arg.process(chunk(b"ab"));
    assert_eq!(out.remote_bytes.as_slice(), b"ab");
    assert_eq!(out.action, LocalAction::NoAction);
}

#[test]
fn leave_modal_returns_to_pass_through() {
    let mut machine = LocalControlInput::new(true, false);
    let started = machine.process(chunk(b"\x1du"));
    assert_eq!(started.action, LocalAction::StartUpload);
    assert_eq!(machine.leave_modal(), LocalAction::NoAction);
    assert_eq!(machine.modal_phase(), None);
    let out = machine.process(chunk(b"xy"));
    assert_eq!(out.remote_bytes.as_slice(), b"xy");
    assert!(out.path_bytes.is_empty());

    // Leaving without an active operation is a no-op.
    assert_eq!(machine.leave_modal(), LocalAction::NoAction);
}

#[test]
fn leave_modal_bells_an_abandoned_prefix() {
    let mut machine = LocalControlInput::new(true, false);
    let started = machine.process(chunk(b"\x1du"));
    assert_eq!(started.action, LocalAction::StartUpload);
    let pending = machine.process(chunk(b"\x1d"));
    assert!(pending.remote_bytes.is_empty());
    assert!(machine.pending_prefix());
    assert_eq!(machine.leave_modal(), LocalAction::Bell);
    assert!(!machine.pending_prefix());
    assert_eq!(machine.modal_phase(), None);

    // The abandoned prefix must not detach later input.
    let out = machine.process(chunk(b"."));
    assert_eq!(out.remote_bytes.as_slice(), b".");
    assert_eq!(out.action, LocalAction::NoAction);
}

#[test]
fn enter_transfer_requires_an_active_prompt() {
    let mut machine = LocalControlInput::new(true, false);
    assert_eq!(machine.enter_transfer(), Err(LocalControlError::NoActiveModal));

    let started = machine.process(chunk(b"\x1du"));
    assert_eq!(started.action, LocalAction::StartUpload);
    assert_eq!(machine.enter_transfer(), Ok(()));
    assert_eq!(machine.modal_phase(), Some(ModalPhase::Transferring));
    assert_eq!(machine.enter_transfer(), Ok(())); // idempotent

    assert_eq!(machine.leave_modal(), LocalAction::NoAction);
    assert_eq!(machine.enter_transfer(), Err(LocalControlError::NoActiveModal));

    let mut download = LocalControlInput::new(true, false);
    let started = download.process(chunk(b"\x1dd"));
    assert_eq!(started.action, LocalAction::StartDownload);
    download.enter_transfer().unwrap();
    assert_eq!(download.modal_phase(), Some(ModalPhase::Transferring));

    // A fresh transfer gets a fresh single bell.
    let mut fresh = LocalControlInput::new(true, false);
    let started = fresh.process(chunk(b"\x1du"));
    assert_eq!(started.action, LocalAction::StartUpload);
    fresh.enter_transfer().unwrap();
    assert_eq!(fresh.process(chunk(b"x")).action, LocalAction::Bell);
    assert_eq!(fresh.leave_modal(), LocalAction::NoAction);
    let restarted = fresh.process(chunk(b"\x1du"));
    assert_eq!(restarted.action, LocalAction::StartUpload);
    fresh.enter_transfer().unwrap();
    assert_eq!(fresh.process(chunk(b"x")).action, LocalAction::Bell);
}

#[test]
fn constructed_modal_machines_start_in_the_prompt_phase() {
    let mut machine = LocalControlInput::new(true, true);
    assert_eq!(machine.modal_phase(), Some(ModalPhase::UploadPrompt));
    let out = machine.process(chunk(b"abc"));
    assert_eq!(out.path_bytes.as_slice(), b"abc");
    assert!(out.remote_bytes.is_empty());
    let out = machine.process(chunk(&[CANCEL_BYTE]));
    assert_eq!(out.action, LocalAction::CancelOp);
}

#[test]
fn explicit_modal_phase_constructor() {
    let mut machine = LocalControlInput::with_modal_phase(true, ModalPhase::DownloadPrompt);
    let out = machine.process(chunk(b"x"));
    assert_eq!(out.path_bytes.as_slice(), b"x");
    assert_eq!(machine.modal_phase(), Some(ModalPhase::DownloadPrompt));
    let out = machine.process(chunk(b"\x1dd"));
    assert_eq!(out.action, LocalAction::AlreadyActive);

    // Disabled machines never report a modal phase.
    let disabled = LocalControlInput::with_modal_phase(false, ModalPhase::Transferring);
    assert_eq!(disabled.modal_phase(), None);
}

#[test]
fn chunk_length_is_bounded() {
    let mut input = LocalInputChunk::new();
    assert_eq!(input.writable().len(), INPUT_CAPACITY);
    assert!(input.set_len(INPUT_CAPACITY + 1).is_err());
    assert!(input.set_len(usize::MAX).is_err());
    assert!(input.set_len(INPUT_CAPACITY).is_ok());
    assert_eq!(input.as_slice().len(), INPUT_CAPACITY);
    assert!(input.set_len(0).is_ok());
    assert!(input.as_slice().is_empty());
}

#[test]
fn outputs_never_exceed_their_fixed_capacity() {
    // A full chunk of ordinary bytes is forwarded exactly.
    let ordinary = vec![b'a'; INPUT_CAPACITY];
    let mut machine = LocalControlInput::new(true, false);
    let out = machine.process(chunk(&ordinary));
    assert_eq!(out.remote_bytes.as_slice(), ordinary.as_slice());

    // A carried prefix plus a full chunk is the worst case for remote
    // output: exactly REMOTE_CAPACITY bytes.
    let escapes = vec![LOCAL_ESCAPE; INPUT_CAPACITY - 1];
    let mut machine = LocalControlInput::new(true, false);
    let first = machine.process(chunk(&escapes));
    assert_eq!(first.remote_bytes.len(), INPUT_CAPACITY / 2 - 1);
    assert!(machine.pending_prefix());
    let second = machine.process(chunk(&ordinary));
    assert_eq!(second.remote_bytes.len(), REMOTE_CAPACITY);
    assert_eq!(second.remote_bytes.as_slice()[0], LOCAL_ESCAPE);
    assert_eq!(second.remote_bytes.as_slice()[1], b'a');

    // A full modal chunk becomes path input, never remote bytes.
    let mut machine = LocalControlInput::new(true, true);
    let out = machine.process(chunk(&ordinary));
    assert_eq!(out.path_bytes.len(), INPUT_CAPACITY);
    assert!(out.remote_bytes.is_empty());

    // The maximum remainder is the chunk minus prefix and selector.
    let mut block = vec![LOCAL_ESCAPE, b'u'];
    block.extend(std::iter::repeat_n(b'x', INPUT_CAPACITY - 2));
    let mut machine = LocalControlInput::new(true, false);
    let out = machine.process(chunk(&block));
    assert_eq!(out.remainder.len(), INPUT_CAPACITY - 2);
    assert!(out.drop_remainder);
}

#[test]
fn every_prefix_selector_sequence_is_split_invariant() {
    let sequences: &[&[u8]] = &[
        b"\x1d.xy",
        b"\x1d\x1dz",
        b"\x1duabc",
        b"\x1ddabc",
        b"\x1d?xy",
        b"\x1dUxy",
    ];
    for sequence in sequences {
        let mut reference = LocalControlInput::new(true, false);
        let expected = reference.process(chunk(sequence));
        let expected_phase = reference.modal_phase();
        for split in 1..sequence.len() {
            let mut machine = LocalControlInput::new(true, false);
            let mut remote = Vec::new();
            let mut op_input = Vec::new();
            let mut action = LocalAction::NoAction;
            let first = machine.process(chunk(&sequence[..split]));
            remote.extend_from_slice(first.remote_bytes.as_slice());
            op_input.extend_from_slice(first.remainder.as_slice());
            if first.action != LocalAction::NoAction {
                action = first.action;
            }
            let second = machine.process(chunk(&sequence[split..]));
            remote.extend_from_slice(second.remote_bytes.as_slice());
            op_input.extend_from_slice(second.remainder.as_slice());
            op_input.extend_from_slice(second.path_bytes.as_slice());
            if second.action != LocalAction::NoAction {
                action = second.action;
            }
            assert_eq!(remote, expected.remote_bytes.as_slice(), "{sequence:?} split {split}");
            assert_eq!(op_input, expected.remainder.as_slice(), "{sequence:?} split {split}");
            assert_eq!(action, expected.action, "{sequence:?} split {split}");
            assert_eq!(machine.modal_phase(), expected_phase, "{sequence:?} split {split}");
        }
    }
}

#[test]
fn arbitrary_byte_sequences_never_panic_and_stay_bounded() {
    let mut state = 0x1234_5678_9abc_def0_u64;
    let mut next = move || {
        state = state
            .wrapping_mul(6364136223846793005)
            .wrapping_add(1442695040888963407);
        (state >> 33) as u8
    };
    for _ in 0..2000 {
        let mode = next() % 4;
        let mut machine = match mode {
            0 => LocalControlInput::new(true, false),
            1 => LocalControlInput::new(true, true),
            2 => LocalControlInput::new(false, false),
            _ => {
                let mut machine = LocalControlInput::new(true, false);
                let _ = machine.process(chunk(b"\x1du"));
                machine
            }
        };
        if mode == 3 {
            machine.enter_transfer().unwrap();
        }
        let block_len = usize::from(next() % 64);
        let block: Vec<u8> = (0..block_len).map(|_| next()).collect();
        let was_modal = machine.modal_phase().is_some();
        let out = machine.process(chunk(&block));
        assert!(out.remote_bytes.len() <= REMOTE_CAPACITY);
        assert!(out.path_bytes.len() <= INPUT_CAPACITY);
        assert!(out.remainder.len() <= INPUT_CAPACITY);
        assert_eq!(out.drop_remainder, !out.remainder.is_empty());
        if was_modal {
            // A block processed while already modal never emits remote
            // bytes; the block that enters modal may forward the bytes
            // before its u/d selector.
            assert!(out.remote_bytes.is_empty());
        }
        let eof = machine.finish();
        assert!(eof.remote_bytes.len() <= REMOTE_CAPACITY);
        assert!(eof.remainder.is_empty());
        assert!(eof.path_bytes.is_empty());
        let _ = machine.leave_modal();
    }
}

#[test]
fn errors_are_structured_and_displayable() {
    let capacity = LocalControlError::ChunkLengthExceedsCapacity;
    assert!(capacity.message().contains("capacity"));
    let no_modal = LocalControlError::NoActiveModal;
    assert!(no_modal.message().contains("file operation"));
    assert_ne!(capacity, no_modal);
}

#[test]
fn equal_outcomes_are_equal_values() {
    let mut machine = LocalControlInput::new(true, false);
    assert_eq!(machine.process(chunk(b"")), ProcessedInput::default());
    assert_eq!(machine.finish(), ProcessedInput::default());
    let once = machine.process(chunk(b"ab\x1d"));
    let mut other = LocalControlInput::new(true, false);
    let again = other.process(chunk(b"ab"));
    assert_eq!(once, again);
    assert_eq!(once.clone(), again);
    let selected = machine.process(chunk(b"uxy"));
    let direct = other.process(chunk(b"\x1duxy"));
    assert_eq!(selected, direct);
    assert_ne!(selected, once);
}
