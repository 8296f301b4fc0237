use server::error::AppError;
use server::ids::document_id;
use server::ids::new_connection_id;
use server::ids::parse_document_id;
use server::ids::RANDOM_VERSION;
use server::ids::VERSION_BITS;

#[test]
fn a_uuid_is_read_as_its_value() {
    assert_eq!(
        parse_document_id("a1a2a3a4-b1b2-c1c2-d1d2-d3d4d5d6d7d8"),
        Ok(0xa1a2a3a4b1b2c1c2d1d2d3d4d5d6d7d8)
    );
    assert_eq!(
        parse_document_id("A1A2A3A4B1B2C1C2D1D2D3D4D5D6D7D8"),
        Ok(0xa1a2a3a4b1b2c1c2d1d2d3d4d5d6d7d8)
    );
    assert_eq!(parse_document_id("00000000-0000-0000-0000-000000000000"), Ok(0));
}

#[test]
fn a_malformed_identifier_is_a_bad_request() {
    for text in ["", "7", "not-a-uuid", "a1a2a3a4-b1b2-c1c2-d1d2-d3d4d5d6d7d", "g1a2a3a4-b1b2-c1c2-d1d2-d3d4d5d6d7d8"] {
        assert_eq!(parse_document_id(text), Err(AppError::BadRequest), "{text:?}");
    }
}

#[test]
fn what_parsing_gave_decides() {
    assert_eq!(document_id(Some(5)), Ok(5));
    assert_eq!(document_id(None), Err(AppError::BadRequest));
}

#[test]
fn a_new_connection_id_is_a_random_uuid() {
    let first = new_connection_id();
    let second = new_connection_id();
    assert_eq!(first & VERSION_BITS, RANDOM_VERSION);
    assert_eq!(second & VERSION_BITS, RANDOM_VERSION);
    assert_ne!(first, second);
    assert_eq!(uuid::Uuid::from_u128(first).get_version_num(), 4);
}
