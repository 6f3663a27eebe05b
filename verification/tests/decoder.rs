use vedit::keys::DecoderState;
use vedit::keys::EditorKey;

fn decode_all(bytes: &[u8]) -> (DecoderState, Vec<EditorKey>) {
    let mut st = DecoderState::new();
    let mut keys = Vec::new();
    for &b in bytes {
        if let Some(k) = st.step(b) {
            keys.push(k);
        }
    }
    (st, keys)
}

#[test]
fn csi_letters_map_to_navigation_keys() {
    let cases: [(u8, EditorKey); 6] = [
        (b'D', EditorKey::ArrowLeft),
        (b'C', EditorKey::ArrowRight),
        (b'A', EditorKey::ArrowUp),
        (b'B', EditorKey::ArrowDown),
        (b'H', EditorKey::HomeKey),
        (b'F', EditorKey::EndKey),
    ];
    for (letter, expected) in cases {
        let (st, keys) = decode_all(&[0x1b, b'[', letter]);
        assert_eq!(keys, vec![expected]);
        assert_eq!(st, DecoderState::Start);
    }
}

#[test]
fn csi_sequence_consumes_exactly_its_bytes() {
    // The byte after a complete arrow sequence belongs to the next
    // keystroke and comes through as a literal.
    let (st, keys) = decode_all(&[0x1b, b'[', b'D', b'x']);
    assert_eq!(keys, vec![EditorKey::ArrowLeft, EditorKey::K(b'x')]);
    assert_eq!(st, DecoderState::Start);
}

#[test]
fn csi_tilde_digits_map_to_extended_keys() {
    let cases: [(u8, EditorKey); 8] = [
        (b'1', EditorKey::HomeKey),
        (b'2', EditorKey::Insert),
        (b'3', EditorKey::DelKey),
        (b'4', EditorKey::EndKey),
        (b'5', EditorKey::PageUp),
        (b'6', EditorKey::PageDown),
        (b'7', EditorKey::HomeKey),
        (b'8', EditorKey::EndKey),
    ];
    for (digit, expected) in cases {
        let (st, keys) = decode_all(&[0x1b, b'[', digit, b'~']);
        assert_eq!(keys, vec![expected]);
        assert_eq!(st, DecoderState::Start);
    }
}

#[test]
fn esc_o_sequences() {
    let (_, keys) = decode_all(&[0x1b, b'O', b'H']);
    assert_eq!(keys, vec![EditorKey::HomeKey]);
    let (_, keys) = decode_all(&[0x1b, b'O', b'F']);
    assert_eq!(keys, vec![EditorKey::EndKey]);
}

#[test]
fn plain_bytes_and_backspace() {
    let (_, keys) = decode_all(&[b'a', 0x7f, b'Z']);
    assert_eq!(
        keys,
        vec![EditorKey::K(b'a'), EditorKey::Backspace, EditorKey::K(b'Z')]
    );
}

#[test]
fn lone_escape_arrives_on_timeout() {
    let mut st = DecoderState::new();
    assert_eq!(st.step(0x1b), None);
    assert_eq!(st.step_timeout(), Some(EditorKey::K(0x1b)));
    assert_eq!(st, DecoderState::Start);
    // A timeout with nothing pending reports nothing.
    assert_eq!(st.step_timeout(), None);
}

#[test]
fn unrecognized_sequence_becomes_literal_escape() {
    let (st, keys) = decode_all(&[0x1b, b'[', b'Z']);
    assert_eq!(keys, vec![EditorKey::K(0x1b)]);
    assert_eq!(st, DecoderState::Start);
    let (_, keys) = decode_all(&[0x1b, b'[', b'3', b'z']);
    assert_eq!(keys, vec![EditorKey::K(0x1b)]);
}
