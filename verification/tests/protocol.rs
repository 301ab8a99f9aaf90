use threebug::codec::{
    decode_entity, deframe_message, encode_entity, frame_message, DecodeError,
};
use threebug::entity::{DebugEntity, ParryDebugEntityType, Vec3Bits};

fn sample_entity(id: Option<u64>) -> DebugEntity {
    let mut e = DebugEntity::new_aabb_entity(
        Vec3Bits { x: 1, y: 2, z: 3 },
        Vec3Bits { x: 4, y: 5, z: 6 },
    );
    e.id = id;
    e
}

#[test]
fn encode_exact_bytes_without_id() {
    let e = sample_entity(None);
    let bytes = encode_entity(&e);
    let expected: Vec<u8> = vec![
        0, // tag: bounding box
        0, // id marker: absent
        0, 0, 0, 1, 0, 0, 0, 2, 0, 0, 0, 3, // mins
        0, 0, 0, 4, 0, 0, 0, 5, 0, 0, 0, 6, // maxs
    ];
    assert_eq!(bytes, expected);
}

#[test]
fn encode_exact_bytes_with_id() {
    let e = sample_entity(Some(258));
    let bytes = encode_entity(&e);
    let expected: Vec<u8> = vec![
        0, // tag: bounding box
        1, // id marker: present
        0, 0, 0, 0, 0, 0, 1, 2, // id 258 big-endian
        0, 0, 0, 1, 0, 0, 0, 2, 0, 0, 0, 3, // mins
        0, 0, 0, 4, 0, 0, 0, 5, 0, 0, 0, 6, // maxs
    ];
    assert_eq!(bytes, expected);
}

#[test]
fn decode_encode_roundtrip_without_id() {
    let e = sample_entity(None);
    let decoded = decode_entity(&encode_entity(&e)).unwrap();
    assert_eq!(decoded, e);
}

#[test]
fn decode_encode_roundtrip_with_id() {
    let e = sample_entity(Some(u64::MAX));
    let decoded = decode_entity(&encode_entity(&e)).unwrap();
    assert_eq!(decoded, e);
}

#[test]
fn decode_strips_visual_handle() {
    let e = sample_entity(Some(7)).with_visual_handle(99);
    let decoded = decode_entity(&encode_entity(&e)).unwrap();
    assert_eq!(decoded.visual_handle, None);
    assert_eq!(decoded.id, Some(7));
    assert_eq!(decoded.entity_type, e.entity_type);
}

#[test]
fn decode_roundtrip_float_bit_patterns() {
    let mins = Vec3Bits {
        x: (-1.5f32).to_bits(),
        y: f32::NAN.to_bits(),
        z: 0.0f32.to_bits(),
    };
    let maxs = Vec3Bits {
        x: 1.5f32.to_bits(),
        y: f32::INFINITY.to_bits(),
        z: (-0.0f32).to_bits(),
    };
    let e = DebugEntity::new_aabb_entity(mins, maxs);
    let decoded = decode_entity(&encode_entity(&e)).unwrap();
    assert_eq!(decoded, e);
    match decoded.entity_type {
        ParryDebugEntityType::Aabb { mins: m, maxs: x } => {
            assert_eq!(f32::from_bits(m.x), -1.5);
            assert!(f32::from_bits(m.y).is_nan());
            assert_eq!(f32::from_bits(x.x), 1.5);
            assert_eq!(f32::from_bits(x.y), f32::INFINITY);
        }
    }
}

#[test]
fn decode_empty_is_truncated() {
    assert_eq!(decode_entity(&Vec::new()), Err(DecodeError::Truncated));
}

#[test]
fn decode_unknown_tag() {
    let mut bytes = encode_entity(&sample_entity(None));
    bytes[0] = 9;
    assert_eq!(decode_entity(&bytes), Err(DecodeError::UnknownTag));
}

#[test]
fn decode_bad_id_marker() {
    let mut bytes = encode_entity(&sample_entity(None));
    bytes[1] = 2;
    assert_eq!(decode_entity(&bytes), Err(DecodeError::BadIdMarker));
}

#[test]
fn decode_truncated_body() {
    let mut bytes = encode_entity(&sample_entity(Some(3)));
    bytes.pop();
    assert_eq!(decode_entity(&bytes), Err(DecodeError::Truncated));
}

#[test]
fn decode_trailing_bytes() {
    let mut bytes = encode_entity(&sample_entity(None));
    bytes.push(0);
    assert_eq!(decode_entity(&bytes), Err(DecodeError::TrailingBytes));
}

#[test]
fn frame_prefixes_length_big_endian() {
    let payload: Vec<u8> = vec![10, 20, 30];
    let framed = frame_message(&payload);
    assert_eq!(framed, vec![0, 0, 0, 3, 10, 20, 30]);
}

#[test]
fn deframe_frame_roundtrip_with_rest() {
    let payload = encode_entity(&sample_entity(None));
    let mut framed = frame_message(&payload);
    framed.extend_from_slice(&[1, 2, 3]);
    let (got, consumed) = deframe_message(&framed).unwrap();
    assert_eq!(got, payload);
    assert_eq!(consumed, 4 + payload.len());
}

#[test]
fn deframe_incomplete_header() {
    let buf: Vec<u8> = vec![0, 0, 0];
    assert!(deframe_message(&buf).is_none());
}

#[test]
fn deframe_incomplete_payload() {
    let buf: Vec<u8> = vec![0, 0, 0, 5, 1, 2];
    assert!(deframe_message(&buf).is_none());
}

#[test]
fn deframe_empty_frame() {
    let buf: Vec<u8> = vec![0, 0, 0, 0];
    let (payload, consumed) = deframe_message(&buf).unwrap();
    assert!(payload.is_empty());
    assert_eq!(consumed, 4);
}
