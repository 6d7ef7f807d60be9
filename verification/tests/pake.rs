use yon::pake::{
    accept_answered_login, accept_begun_login, exact_array, OpaquePake, OpaquePakeError,
    PakeSecret, PeerIdBytes,
};

fn peer(bytes: &[u8]) -> PeerIdBytes {
    PeerIdBytes {
        bytes: bytes.to_vec(),
    }
}

fn secret(value: u64) -> PakeSecret {
    PakeSecret {
        bytes: value.to_be_bytes(),
    }
}

#[test]
fn both_sides_confirm_the_same_key() {
    let mut opaque = OpaquePake;
    let server = peer(b"target-peer-id");
    let secret = secret(0x0123_4567_89AB_CDEF);
    let registration = opaque.register(&server, &secret).unwrap();
    let (client, ke1) = opaque.client_start(&server, &secret).unwrap();
    let context = b"bound-yonder-context";
    let (server, ke2) = opaque.server_start(&registration, &ke1, context).unwrap();
    let (ke3, client_key) = opaque.client_finish(client, &ke2, context).unwrap();
    let server_key = opaque.server_finish(server, &ke3).unwrap();
    assert_eq!(client_key.as_ref(), server_key.as_ref());
    assert_eq!(server_key.as_ref().len(), 64);
    assert_eq!(client_key.redacted(), "OpaqueSessionKey([REDACTED])");
    assert!(client_key.as_ref().iter().any(|byte| *byte != 0));
}

#[test]
fn a_wrong_secret_is_rejected() {
    let mut opaque = OpaquePake;
    let server = peer(b"target-peer-id");
    let expected = secret(1);
    let wrong = secret(2);
    let registration = opaque.register(&server, &expected).unwrap();
    let (client, ke1) = opaque.client_start(&server, &wrong).unwrap();
    let (server, ke2) = opaque
        .server_start(&registration, &ke1, b"context")
        .unwrap();
    assert!(opaque.client_finish(client, &ke2, b"context").is_err());
    drop(server);
}

#[test]
fn malformed_wire_messages_and_oversized_contexts_are_rejected() {
    let mut opaque = OpaquePake;
    let server = peer(b"target-peer-id");
    let secret = secret(3);
    let registration = opaque.register(&server, &secret).unwrap();

    assert!(matches!(
        opaque.server_start(&registration, &[0; 96], b"context"),
        Err(OpaquePakeError::Rejected)
    ));
    let (client, ke1) = opaque.client_start(&server, &secret).unwrap();
    assert!(matches!(
        opaque.server_start(&registration, &ke1, &[0; 257]),
        Err(OpaquePakeError::WireSize)
    ));
    assert!(matches!(
        opaque.client_finish(client, &[0; 320], b"context"),
        Err(OpaquePakeError::Rejected)
    ));

    let (_, ke1) = opaque.client_start(&server, &secret).unwrap();
    let (server_state, _) = opaque
        .server_start(&registration, &ke1, b"context")
        .unwrap();
    assert!(matches!(
        opaque.server_finish(server_state, &[0; 64]),
        Err(OpaquePakeError::Rejected)
    ));
    assert!(matches!(
        exact_array::<2>(&[1]),
        Err(OpaquePakeError::WireSize)
    ));
    assert!(matches!(
        exact_array::<64>(&[]),
        Err(OpaquePakeError::WireSize)
    ));
    assert!(matches!(
        exact_array::<96>(&[]),
        Err(OpaquePakeError::WireSize)
    ));
    assert!(matches!(
        exact_array::<320>(&[]),
        Err(OpaquePakeError::WireSize)
    ));
    assert_eq!(exact_array::<2>(&[1, 2]).unwrap(), [1, 2]);
    assert_eq!(
        OpaquePakeError::Rejected.message(),
        "the OPAQUE exchange was rejected"
    );
}

#[test]
fn a_different_server_identifier_is_rejected() {
    let mut opaque = OpaquePake;
    let server = peer(b"target-peer-id");
    let wrong_server = peer(b"different-target");
    let secret = secret(4);
    let registration = opaque.register(&server, &secret).unwrap();
    let (client, ke1) = opaque.client_start(&wrong_server, &secret).unwrap();
    let (_, ke2) = opaque
        .server_start(&registration, &ke1, b"context")
        .unwrap();
    assert!(opaque.client_finish(client, &ke2, b"context").is_err());
}

#[test]
fn a_changed_byte_of_the_last_message_is_rejected() {
    let mut opaque = OpaquePake;
    let server = peer(b"target-peer-id");
    let secret = secret(5);
    let registration = opaque.register(&server, &secret).unwrap();
    let (client, ke1) = opaque.client_start(&server, &secret).unwrap();
    let (state, ke2) = opaque.server_start(&registration, &ke1, b"").unwrap();
    let (mut ke3, _) = opaque.client_finish(client, &ke2, b"").unwrap();
    ke3[63] ^= 1;
    assert!(matches!(
        opaque.server_finish(state, &ke3),
        Err(OpaquePakeError::Rejected)
    ));
}

#[test]
fn outside_results_of_the_wrong_size_are_refused() {
    let server = peer(b"target");
    assert!(matches!(
        accept_begun_login(None, &server, &secret(6)),
        Err(OpaquePakeError::Rejected)
    ));
    assert!(matches!(
        accept_begun_login(Some((vec![1], vec![0; 95])), &server, &secret(6)),
        Err(OpaquePakeError::WireSize)
    ));
    let (_, message) =
        accept_begun_login(Some((vec![1], vec![7; 96])), &server, &secret(6)).unwrap();
    assert_eq!(message, [7; 96]);
    assert!(matches!(
        accept_answered_login(None, b"", &server),
        Err(OpaquePakeError::Rejected)
    ));
    assert!(matches!(
        accept_answered_login(Some((vec![0; 128], vec![0; 320])), &[0; 257], &server),
        Err(OpaquePakeError::WireSize)
    ));
    assert!(matches!(
        accept_answered_login(Some((vec![0; 128], vec![0; 319])), b"", &server),
        Err(OpaquePakeError::WireSize)
    ));
    let (mut state, message) =
        accept_answered_login(Some((vec![3; 128], vec![9; 320])), &[5; 256], &server).unwrap();
    assert_eq!(message, [9; 320]);
    state.zeroize();
    assert!(OpaquePake.server_finish(state, &[0; 64]).is_ok());
    assert_eq!(
        OpaquePakeError::WireSize.message(),
        "the configured OPAQUE wire size does not match the selected ciphersuite"
    );
}

#[test]
fn a_wiped_key_is_all_zero() {
    let mut opaque = OpaquePake;
    let server = peer(b"target-peer-id");
    let secret = secret(8);
    let registration = opaque.register(&server, &secret).unwrap();
    let (client, ke1) = opaque.client_start(&server, &secret).unwrap();
    let (_, ke2) = opaque.server_start(&registration, &ke1, b"c").unwrap();
    let (_, mut key) = opaque.client_finish(client, &ke2, b"c").unwrap();
    assert_ne!(key.as_ref(), [0; 64].as_slice());
    key.zeroize();
    assert_eq!(key.as_ref(), [0; 64].as_slice());
    let (mut state, _) = opaque.client_start(&server, &secret).unwrap();
    state.zeroize();
    assert!(matches!(
        opaque.client_finish(state, &ke2, b"c"),
        Err(OpaquePakeError::Rejected)
    ));
}

#[test]
fn a_wiped_registration_answers_nothing() {
    let mut opaque = OpaquePake;
    let server = peer(b"target-peer-id");
    let mut registration = opaque.register(&server, &secret(9)).unwrap();
    let (_, ke1) = opaque.client_start(&server, &secret(9)).unwrap();
    assert!(opaque.server_start(&registration, &ke1, b"c").is_ok());
    registration.zeroize();
    assert!(matches!(
        opaque.server_start(&registration, &ke1, b"c"),
        Err(OpaquePakeError::Rejected)
    ));
}
