use multimedia_management_service::uuid_text::{parse_uuid, uuid_string};

#[test]
fn test_uuid_string_matches_canonical_form() {
    for _ in 0..16 {
        let id = uuid::Uuid::new_v4();
        assert_eq!(uuid_string(id.as_u128()), id.to_string());
    }
    assert_eq!(uuid_string(0), "00000000-0000-0000-0000-000000000000");
    assert_eq!(
        uuid_string(u128::MAX),
        "ffffffff-ffff-ffff-ffff-ffffffffffff"
    );
}

#[test]
fn test_parse_uuid_round_trip() {
    for _ in 0..16 {
        let id = uuid::Uuid::new_v4().as_u128();
        assert_eq!(parse_uuid(&uuid_string(id)), Some(id));
    }
    assert_eq!(
        parse_uuid("077CD041-45BE-4699-8F54-C5C42C8298A3"),
        parse_uuid("077cd041-45be-4699-8f54-c5c42c8298a3")
    );
}

#[test]
fn test_parse_uuid_rejects_malformed_text() {
    assert_eq!(parse_uuid(""), None);
    assert_eq!(parse_uuid("077cd041-45be-4699-8f54-c5c42c8298a"), None);
    assert_eq!(parse_uuid("077cd041-45be-4699-8f54-c5c42c8298a3a"), None);
    assert_eq!(parse_uuid("077cd041x45be-4699-8f54-c5c42c8298a3"), None);
    assert_eq!(parse_uuid("077cd041-45be-4699-8f54-c5c42c8298g3"), None);
}
