use stark_proofs::codec::{parse_decimal_u128, u128_to_decimal};
use stark_proofs::protocol::{vdf_generation_response, ApplicationResponseMessage, ProofResponse};

fn encoded(result: u128, proof: Vec<u8>) -> (String, String) {
    match vdf_generation_response(result, proof) {
        ApplicationResponseMessage::ProofGenerationResponse(ProofResponse::VdfProof {
            result,
            proof,
        }) => (result, proof),
        _ => panic!("expected a generation response"),
    }
}

#[test]
fn test_u128_to_decimal_renders_exactly() {
    assert_eq!(u128_to_decimal(0), "0");
    assert_eq!(u128_to_decimal(7), "7");
    assert_eq!(u128_to_decimal(10), "10");
    assert_eq!(u128_to_decimal(12345678901234567890), "12345678901234567890");
    assert_eq!(u128_to_decimal(u128::MAX), "340282366920938463463374607431768211455");
}

#[test]
fn test_parse_decimal_accepts_digits_only() {
    assert_eq!(parse_decimal_u128("0"), Some(0));
    assert_eq!(parse_decimal_u128("00042"), Some(42));
    assert_eq!(
        parse_decimal_u128("340282366920938463463374607431768211455"),
        Some(u128::MAX)
    );
    assert_eq!(parse_decimal_u128(""), None);
    assert_eq!(parse_decimal_u128("12a"), None);
    assert_eq!(parse_decimal_u128("+5"), None);
    assert_eq!(parse_decimal_u128("-5"), None);
    assert_eq!(parse_decimal_u128(" 5"), None);
    // one past the largest 128-bit value
    assert_eq!(parse_decimal_u128("340282366920938463463374607431768211456"), None);
}

#[test]
fn test_parse_round_trips_rendering() {
    let values: Vec<u128> = vec![0, 1, 9, 10, 99, 1000000007, u128::MAX];
    for v in values {
        assert_eq!(parse_decimal_u128(&u128_to_decimal(v)), Some(v));
    }
}

#[test]
fn test_base64_known_vectors_in_responses() {
    assert_eq!(encoded(0, vec![]), ("0".to_string(), "".to_string()));
    assert_eq!(encoded(42, vec![104, 101, 108, 108, 111]).1, "aGVsbG8=");
    assert_eq!(encoded(42, vec![0]).1, "AA==");
    assert_eq!(encoded(42, vec![0, 0]).1, "AAA=");
    assert_eq!(encoded(42, vec![251, 255, 190]).1, "+/++");
}
