use native_bridge::status::{NFE_EXPECTED_STRUCT_TYPE_TAG, NFE_UNABLE_TO_PARSE_ADDRESS};

#[test]
fn status_codes_have_their_values() {
    assert_eq!(NFE_EXPECTED_STRUCT_TYPE_TAG, 0x1);
    assert_eq!(NFE_UNABLE_TO_PARSE_ADDRESS, 0x2);
}
