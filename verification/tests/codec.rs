use abloader::codec::{decode_loader_state, encode_loader_state};
use abloader::state::{DecodeError, LoaderState};

fn state(active_slot: i32, next_slot: i32) -> LoaderState {
    LoaderState { active_slot, next_slot }
}

#[test]
fn encode_steady_state_active_a() {
    assert_eq!(encode_loader_state(&state(1, 0)), vec![0x08, 0x01]);
}

#[test]
fn encode_steady_state_active_b() {
    assert_eq!(encode_loader_state(&state(2, 0)), vec![0x08, 0x02]);
}

#[test]
fn encode_with_override() {
    assert_eq!(encode_loader_state(&state(2, 1)), vec![0x08, 0x02, 0x10, 0x01]);
}

#[test]
fn encode_all_defaults_is_empty() {
    assert_eq!(encode_loader_state(&state(0, 0)), Vec::<u8>::new());
}

#[test]
fn encode_skips_zero_active_field() {
    assert_eq!(encode_loader_state(&state(0, 2)), vec![0x10, 0x02]);
}

#[test]
fn decode_empty_gives_defaults() {
    assert_eq!(decode_loader_state(&Vec::new()), Ok(state(0, 0)));
}

#[test]
fn decode_round_trips_every_ordinal_pair() {
    for active in [-2, -1, 0, 1, 2, 3, 1000, i32::MAX, i32::MIN] {
        for next in [-2, -1, 0, 1, 2, 3, 1000, i32::MAX, i32::MIN] {
            let st = state(active, next);
            let bytes = encode_loader_state(&st);
            assert_eq!(decode_loader_state(&bytes), Ok(st));
        }
    }
}

#[test]
fn decode_negative_ordinal_sign_extended() {
    // -1 sign-extends to a ten-byte varint on the wire.
    let bytes = vec![0x08, 0xff, 0xff, 0xff, 0xff, 0xff, 0xff, 0xff, 0xff, 0xff, 0x01];
    assert_eq!(encode_loader_state(&state(-1, 0)), bytes);
    assert_eq!(decode_loader_state(&bytes), Ok(state(-1, 0)));
}

#[test]
fn decode_keeps_low_bits_of_wide_value() {
    // Field one holding 2^32 + 1: the enumeration keeps the low 32 bits.
    let bytes = vec![0x08, 0x81, 0x80, 0x80, 0x80, 0x10];
    assert_eq!(decode_loader_state(&bytes), Ok(state(1, 0)));
}

#[test]
fn decode_last_occurrence_wins() {
    let bytes = vec![0x08, 0x01, 0x08, 0x02];
    assert_eq!(decode_loader_state(&bytes), Ok(state(2, 0)));
}

#[test]
fn decode_skips_unknown_varint_field() {
    // Field three, wire type zero.
    let bytes = vec![0x18, 0x7f, 0x08, 0x02];
    assert_eq!(decode_loader_state(&bytes), Ok(state(2, 0)));
}

#[test]
fn decode_skips_unknown_length_delimited_field() {
    // Field three, wire type two, two payload bytes.
    let bytes = vec![0x1a, 0x02, 0xde, 0xad, 0x10, 0x01];
    assert_eq!(decode_loader_state(&bytes), Ok(state(0, 1)));
}

#[test]
fn decode_skips_unknown_fixed_width_fields() {
    // Field three, wire type five (four bytes), then field four, wire type
    // one (eight bytes).
    let bytes = vec![
        0x1d, 1, 2, 3, 4, 0x21, 1, 2, 3, 4, 5, 6, 7, 8, 0x08, 0x01,
    ];
    assert_eq!(decode_loader_state(&bytes), Ok(state(1, 0)));
}

#[test]
fn decode_rejects_truncated_varint() {
    assert_eq!(decode_loader_state(&vec![0x08, 0x80]), Err(DecodeError::InvalidVarint));
}

#[test]
fn decode_rejects_overlong_varint() {
    // Eleven bytes of continuation.
    let bytes = vec![0x08, 0x80, 0x80, 0x80, 0x80, 0x80, 0x80, 0x80, 0x80, 0x80, 0x80, 0x01];
    assert_eq!(decode_loader_state(&bytes), Err(DecodeError::InvalidVarint));
}

#[test]
fn decode_rejects_varint_overflowing_sixty_four_bits() {
    // Ten bytes whose last holds more than one bit of value.
    let bytes = vec![0x08, 0x80, 0x80, 0x80, 0x80, 0x80, 0x80, 0x80, 0x80, 0x80, 0x02];
    assert_eq!(decode_loader_state(&bytes), Err(DecodeError::InvalidVarint));
}

#[test]
fn decode_rejects_zero_field_number() {
    assert_eq!(decode_loader_state(&vec![0x00, 0x01]), Err(DecodeError::InvalidKey));
}

#[test]
fn decode_rejects_key_past_thirty_two_bits() {
    // A five-byte key varint denoting 2^35.
    let bytes = vec![0x80, 0x80, 0x80, 0x80, 0x80, 0x01];
    assert_eq!(decode_loader_state(&bytes), Err(DecodeError::InvalidKey));
}

#[test]
fn decode_rejects_reserved_wire_types() {
    // Wire types six and seven.
    assert_eq!(decode_loader_state(&vec![0x0e]), Err(DecodeError::InvalidWireType));
    assert_eq!(decode_loader_state(&vec![0x0f]), Err(DecodeError::InvalidWireType));
}

#[test]
fn decode_rejects_group_wire_types() {
    // Wire types three and four: the deprecated group encodings.
    assert_eq!(decode_loader_state(&vec![0x1b]), Err(DecodeError::InvalidWireType));
    assert_eq!(decode_loader_state(&vec![0x1c]), Err(DecodeError::InvalidWireType));
}

#[test]
fn decode_rejects_wrong_wire_type_on_enumeration_field() {
    // Field one as length-delimited.
    let bytes = vec![0x0a, 0x01, 0x01];
    assert_eq!(decode_loader_state(&bytes), Err(DecodeError::InvalidWireType));
}

#[test]
fn decode_rejects_truncated_length_delimited_payload() {
    // Field three, wire type two, claims five bytes but carries one.
    let bytes = vec![0x1a, 0x05, 0x00];
    assert_eq!(decode_loader_state(&bytes), Err(DecodeError::Truncated));
}

#[test]
fn decode_rejects_truncated_fixed_width_payload() {
    // Field three, wire type one, with too few bytes.
    assert_eq!(decode_loader_state(&vec![0x19, 0x00]), Err(DecodeError::Truncated));
    // Field three, wire type five, with too few bytes.
    assert_eq!(decode_loader_state(&vec![0x1d, 0x00]), Err(DecodeError::Truncated));
    // An enumeration field with a fixed-width wire type is a wire type
    // error, not a skip.
    assert_eq!(decode_loader_state(&vec![0x09, 0x00]), Err(DecodeError::InvalidWireType));
}

#[test]
fn decode_error_messages_name_the_kind() {
    assert_eq!(DecodeError::InvalidVarint.message(), "malformed varint".to_string());
    assert_eq!(DecodeError::InvalidKey.message(), "invalid field key".to_string());
    assert_eq!(DecodeError::InvalidWireType.message(), "invalid wire type".to_string());
    assert_eq!(DecodeError::Truncated.message(), "truncated field payload".to_string());
}

#[test]
fn encoding_matches_reference_protobuf_encoder() {
    for (active, next) in [(1, 0), (2, 0), (2, 1), (1, 2), (0, 0), (0, 2), (-1, 7)] {
        let mut expected: Vec<u8> = Vec::new();
        if active != 0 {
            prost::encoding::int32::encode(1, &active, &mut expected);
        }
        if next != 0 {
            prost::encoding::int32::encode(2, &next, &mut expected);
        }
        assert_eq!(encode_loader_state(&state(active, next)), expected);
    }
}

#[test]
fn decoding_accepts_reference_protobuf_encoder_output() {
    let mut bytes: Vec<u8> = Vec::new();
    prost::encoding::int32::encode(1, &2, &mut bytes);
    prost::encoding::int32::encode(2, &1, &mut bytes);
    // An unknown field a future writer might add.
    prost::encoding::encode_key(9, prost::encoding::WireType::LengthDelimited, &mut bytes);
    prost::encoding::encode_varint(3, &mut bytes);
    bytes.extend_from_slice(&[0xaa, 0xbb, 0xcc]);
    assert_eq!(decode_loader_state(&bytes), Ok(state(2, 1)));
}

#[test]
fn varint_decoding_matches_reference_protobuf_encoder() {
    for v in [0u64, 1, 2, 127, 128, 300, 16384, 0xFFFF_FFFF, 1 << 35, u64::MAX] {
        let mut bytes: Vec<u8> = Vec::new();
        prost::encoding::encode_key(1, prost::encoding::WireType::Varint, &mut bytes);
        prost::encoding::encode_varint(v, &mut bytes);
        // The enumeration field keeps the low thirty-two bits.
        let decoded = decode_loader_state(&bytes).unwrap();
        assert_eq!(decoded.active_slot, v as i32);
        assert_eq!(decoded.next_slot, 0);
    }
}
