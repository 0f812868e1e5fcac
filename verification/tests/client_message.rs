//! Validation of the general-purpose client-message constructor.
use xevent::event::{ClientEventMask, ClientMessage, CLIENT_MESSAGE_WORDS};
use xevent::xconnection::XError;

#[test]
fn word_count_constant_is_five() {
    assert_eq!(CLIENT_MESSAGE_WORDS, 5);
}

#[test]
fn try_from_data_accepts_exactly_five_words() {
    let data = [7u32, 8, 9, 10, 11];
    let m = ClientMessage::try_from_data(1, ClientEventMask::NoEventMask, "WM_PROTOCOLS", &data)
        .expect("five words must be accepted");
    assert_eq!(m.id, 1);
    assert_eq!(m.mask, ClientEventMask::NoEventMask);
    assert_eq!(m.dtype, "WM_PROTOCOLS".to_string());
    assert_eq!(m.data(), &[7, 8, 9, 10, 11]);
}

#[test]
fn try_from_data_rejects_every_other_length() {
    let words = [1u32, 2, 3, 4, 5, 6, 7, 8];
    for len in 0..=8usize {
        if len == 5 {
            continue;
        }
        let r = ClientMessage::try_from_data(
            9,
            ClientEventMask::SubstructureNotify,
            "MANAGER",
            &words[..len],
        );
        assert_eq!(r, Err(XError::InvalidClientMessageData(len)));
    }
}

#[test]
fn try_from_data_keeps_payload_order() {
    let data = [5u32, 4, 3, 2, 1];
    let m = ClientMessage::try_from_data(3, ClientEventMask::SubstructureNotify, "_XEMBED", &data)
        .expect("five words must be accepted");
    assert_eq!(m.data(), &[5, 4, 3, 2, 1]);
}

#[test]
fn invalid_data_error_carries_actual_length() {
    let data = [0u32; 7];
    match ClientMessage::try_from_data(0, ClientEventMask::NoEventMask, "X", &data) {
        Err(XError::InvalidClientMessageData(len)) => assert_eq!(len, 7),
        other => panic!("expected an invalid-data error, got {:?}", other),
    }
}
