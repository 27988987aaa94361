use screen_recorder_picker::codec::{decode_response, encode_request, encode_response};
use screen_recorder_picker::selection::{Geometry, IpcResponse};

#[test]
fn request_is_version_then_query_tag() {
    assert_eq!(encode_request(), vec![1u8, 0u8]);
}

#[test]
fn no_selection_has_exact_wire_form() {
    let bytes = encode_response(&IpcResponse::NoSelection);
    assert_eq!(bytes, vec![1u8, 0u8]);
}

#[test]
fn error_has_exact_wire_form() {
    let bytes = encode_response(&IpcResponse::Error { message: "ab".to_string() });
    assert_eq!(bytes, vec![1u8, 2u8, 2, 0, 0, 0, b'a', b'b']);
}

#[test]
fn selection_with_geometry_has_exact_wire_form() {
    let bytes = encode_response(&IpcResponse::Selection {
        source_type: "region".to_string(),
        source_id: "m0".to_string(),
        geometry: Some(Geometry { x: -1, y: 2, width: 800, height: 600 }),
    });
    let mut expected: Vec<u8> = vec![1, 1];
    expected.extend([6, 0, 0, 0]);
    expected.extend(b"region");
    expected.extend([2, 0, 0, 0]);
    expected.extend(b"m0");
    expected.push(1);
    expected.extend([0xff, 0xff, 0xff, 0xff]); // x = -1, two's complement
    expected.extend([2, 0, 0, 0]); // y = 2
    expected.extend([0x20, 0x03, 0, 0]); // width = 800
    expected.extend([0x58, 0x02, 0, 0]); // height = 600
    assert_eq!(bytes, expected);
}

#[test]
fn round_trip_no_selection() {
    let bytes = encode_response(&IpcResponse::NoSelection);
    match decode_response(&bytes).expect("must decode") {
        IpcResponse::NoSelection => {},
        other => panic!("wrong variant: {:?}", other),
    }
}

#[test]
fn round_trip_error() {
    let bytes = encode_response(&IpcResponse::Error { message: "ipc wenkt ab".to_string() });
    match decode_response(&bytes).expect("must decode") {
        IpcResponse::Error { message } => assert_eq!(message, "ipc wenkt ab"),
        other => panic!("wrong variant: {:?}", other),
    }
}

#[test]
fn round_trip_selection_without_geometry() {
    let bytes = encode_response(&IpcResponse::Selection {
        source_type: "window".to_string(),
        source_id: "win-42".to_string(),
        geometry: None,
    });
    match decode_response(&bytes).expect("must decode") {
        IpcResponse::Selection { source_type, source_id, geometry } => {
            assert_eq!(source_type, "window");
            assert_eq!(source_id, "win-42");
            assert!(geometry.is_none());
        },
        other => panic!("wrong variant: {:?}", other),
    }
}

#[test]
fn round_trip_selection_with_geometry() {
    let g = Geometry { x: -1920, y: 0, width: 1920, height: 1080 };
    let bytes = encode_response(&IpcResponse::Selection {
        source_type: "region".to_string(),
        source_id: "mon-0".to_string(),
        geometry: Some(g),
    });
    match decode_response(&bytes).expect("must decode") {
        IpcResponse::Selection { source_type, source_id, geometry } => {
            assert_eq!(source_type, "region");
            assert_eq!(source_id, "mon-0");
            assert_eq!(geometry, Some(g));
        },
        other => panic!("wrong variant: {:?}", other),
    }
}

#[test]
fn round_trip_keeps_non_ascii_strings() {
    let bytes = encode_response(&IpcResponse::Selection {
        source_type: "monitor".to_string(),
        source_id: "écran-principal".to_string(),
        geometry: None,
    });
    match decode_response(&bytes).expect("must decode") {
        IpcResponse::Selection { source_id, .. } => assert_eq!(source_id, "écran-principal"),
        other => panic!("wrong variant: {:?}", other),
    }
}

#[test]
fn decode_rejects_wrong_version() {
    assert!(decode_response(&[2u8, 0u8]).is_none());
}

#[test]
fn decode_rejects_unknown_tag() {
    assert!(decode_response(&[1u8, 9u8]).is_none());
}

#[test]
fn decode_rejects_trailing_bytes() {
    assert!(decode_response(&[1u8, 0u8, 0u8]).is_none());
    let mut bytes = encode_response(&IpcResponse::Error { message: "x".to_string() });
    bytes.push(0);
    assert!(decode_response(&bytes).is_none());
}

#[test]
fn decode_rejects_truncated_input() {
    assert!(decode_response(&[]).is_none());
    assert!(decode_response(&[1u8]).is_none());
    let bytes = encode_response(&IpcResponse::Error { message: "abc".to_string() });
    assert!(decode_response(&bytes[..bytes.len() - 1]).is_none());
    assert!(decode_response(&[1u8, 2u8, 4, 0, 0, 0, b'a']).is_none());
}

#[test]
fn decode_rejects_invalid_utf8() {
    assert!(decode_response(&[1u8, 2u8, 1, 0, 0, 0, 0xff]).is_none());
}
