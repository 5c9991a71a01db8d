use lowboy::signing::{decode_session_key, session_key_from, SessionKeyError};

#[test]
fn session_key_decodes_base64() {
    assert_eq!(decode_session_key("aGVsbG8=").unwrap(), b"hello".to_vec());
    assert_eq!(decode_session_key("").unwrap(), Vec::<u8>::new());
}

#[test]
fn session_key_refuses_bad_base64() {
    match decode_session_key("not base64!") {
        Err(SessionKeyError::Base64Decode(_)) => {}
        other => panic!("expected a decode error, got {other:?}"),
    }
    match decode_session_key("aGVsbG8") {
        Err(SessionKeyError::Base64Decode(_)) => {}
        other => panic!("expected a decode error, got {other:?}"),
    }
}

#[test]
fn session_key_from_maps_outcomes() {
    assert_eq!(session_key_from(Ok(vec![1, 2, 3])).unwrap(), vec![1, 2, 3]);
    match session_key_from(Err(base64::DecodeError::InvalidLength(3))) {
        Err(SessionKeyError::Base64Decode(e)) => assert_eq!(e, base64::DecodeError::InvalidLength(3)),
        other => panic!("expected a decode error, got {other:?}"),
    }
}
