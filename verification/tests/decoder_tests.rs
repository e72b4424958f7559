use hacl::decoder::decode_string_list;
use hacl::errors::HaclError;

#[test]
fn round_trip_on_well_formed_input() {
    let decoded = decode_string_list("['a', 'b', 'c']").unwrap();
    assert_eq!(decoded, vec!["a".to_string(), "b".to_string(), "c".to_string()]);
}

#[test]
fn no_single_quotes_matches_strict_decoding() {
    let raw = "[\"a\", \"b\"]";
    let decoded = decode_string_list(raw).unwrap();
    let direct: Vec<String> = serde_json::from_str(raw).unwrap();
    assert_eq!(decoded, direct);
}

#[test]
fn malformed_input_fails_closed() {
    let result = decode_string_list("not a list");
    match result {
        Err(HaclError::DecodeError(payload)) => assert_eq!(payload, "not a list"),
        _ => panic!("expected a decode error carrying the raw text"),
    }
}

#[test]
fn empty_list_decodes() {
    let decoded = decode_string_list("[]").unwrap();
    assert_eq!(decoded, Vec::<String>::new());
}

#[test]
fn embedded_apostrophe_breaks_decoding() {
    let result = decode_string_list("['o'brien's room']");
    assert!(matches!(result, Err(HaclError::DecodeError(_))));
}

#[test]
fn list_of_numbers_is_rejected() {
    let result = decode_string_list("[1, 2]");
    assert!(matches!(result, Err(HaclError::DecodeError(_))));
}
