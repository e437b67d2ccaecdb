use grpc_sky_api::metadata::SkyErrorMetadata;
use grpc_sky_api::reason::{CommonErrorReason, UserErrorReason};
use grpc_sky_api::render::{escape_str, render_map};
use grpc_sky_api::status::Code;

#[test]
fn metadata_map_round_trip() {
    let metadata = SkyErrorMetadata {
        user_name: Some("tester".to_string()),
    };
    let map = metadata.to_map();
    assert_eq!(
        map,
        vec![("userName".to_string(), "tester".to_string())]
    );
    let back = SkyErrorMetadata::from_map(map).unwrap();
    assert_eq!(back.user_name, Some("tester".to_string()));
}

#[test]
fn absent_fields_are_omitted() {
    let metadata = SkyErrorMetadata { user_name: None };
    assert!(metadata.to_map().is_empty());
    assert_eq!(metadata.display_string(), "{}");
}

#[test]
fn unknown_keys_are_ignored() {
    let map = vec![("bogus".to_string(), "x".to_string())];
    let back = SkyErrorMetadata::from_map(map).unwrap();
    assert!(back.user_name.is_none());
}

#[test]
fn first_map_entry_wins() {
    let map = vec![
        ("userName".to_string(), "first".to_string()),
        ("userName".to_string(), "second".to_string()),
    ];
    let back = SkyErrorMetadata::from_map(map).unwrap();
    assert_eq!(back.user_name, Some("first".to_string()));
}

#[test]
fn metadata_display_is_ordered_listing() {
    let metadata = SkyErrorMetadata {
        user_name: Some("tester".to_string()),
    };
    assert_eq!(metadata.display_string(), "{\"userName\": \"tester\"}");
}

#[test]
fn escaping_covers_quotes_and_controls() {
    assert_eq!(escape_str("plain"), "plain");
    assert_eq!(escape_str("a\"b"), "a\\\"b");
    assert_eq!(escape_str("a\\b"), "a\\\\b");
    assert_eq!(escape_str("a\nb\tc\rd"), "a\\nb\\tc\\rd");
    assert_eq!(escape_str("\u{8}\u{c}"), "\\b\\f");
    assert_eq!(escape_str("\u{1}\u{1f}"), "\\u0001\\u001f");
}

#[test]
fn map_rendering_orders_and_separates() {
    let pairs = vec![
        ("a".to_string(), "1".to_string()),
        ("b".to_string(), "2".to_string()),
    ];
    assert_eq!(render_map(&pairs), "{\"a\": \"1\", \"b\": \"2\"}");
    assert_eq!(render_map(&Vec::new()), "{}");
}

#[test]
fn common_reason_names_round_trip() {
    let reasons = vec![
        CommonErrorReason::Unspecified,
        CommonErrorReason::ResourceNotFound,
        CommonErrorReason::Unauthorized,
        CommonErrorReason::RequiredFieldMissing,
        CommonErrorReason::InvalidName,
        CommonErrorReason::InvalidParent,
        CommonErrorReason::InvalidStringFormat,
        CommonErrorReason::InvalidId,
        CommonErrorReason::DuplicateId,
        CommonErrorReason::InvalidDisplayName,
        CommonErrorReason::InvalidDateTime,
        CommonErrorReason::InvalidEnumValue,
        CommonErrorReason::UnknownOneofVariant,
        CommonErrorReason::InvalidNumericValue,
        CommonErrorReason::FailedConvertValue,
        CommonErrorReason::NumericOutOfRange,
        CommonErrorReason::DuplicateValue,
        CommonErrorReason::AlreadyExists,
        CommonErrorReason::NotFound,
        CommonErrorReason::TypeMismatch,
    ];
    for reason in reasons {
        let name = reason.as_str_name();
        assert!(name.starts_with("COMMON_ERROR_REASON_"));
        assert_eq!(CommonErrorReason::from_str_name(name), Some(reason));
    }
    assert_eq!(CommonErrorReason::from_str_name("NO_SUCH_NAME"), None);
    assert_eq!(
        CommonErrorReason::from_str_name("COMMON_ERROR_REASON_NOT_FOUND"),
        Some(CommonErrorReason::NotFound)
    );
}

#[test]
fn user_reason_names_round_trip() {
    let reasons = vec![
        UserErrorReason::Unspecified,
        UserErrorReason::InvalidName,
        UserErrorReason::InvalidPassword,
        UserErrorReason::IncorrectCredentials,
    ];
    for reason in reasons {
        let name = reason.as_str_name();
        assert!(name.starts_with("USER_ERROR_REASON_"));
        assert_eq!(UserErrorReason::from_str_name(name), Some(reason));
    }
    assert_eq!(UserErrorReason::from_str_name(""), None);
}

#[test]
fn code_names() {
    assert_eq!(Code::InvalidArgument.as_str_name(), "INVALID_ARGUMENT");
    assert_eq!(Code::Okay.as_str_name(), "OK");
    assert_eq!(Code::NotFound.as_str_name(), "NOT_FOUND");
    assert_eq!(Code::Unauthenticated.as_str_name(), "UNAUTHENTICATED");
}
