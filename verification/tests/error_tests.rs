use grpc_sky_api::common::CommonError;
use grpc_sky_api::error::{get_common_error_reason, SkyError, UserError};
use grpc_sky_api::reason::{CommonErrorReason, UserErrorReason};
use grpc_sky_api::status::{Code, Status};

#[test]
fn it_works() {
    let err = UserError::new(UserErrorReason::InvalidName).with_user_name("tester");
    assert_eq!(
        err.display_string(),
        r#"USER_ERROR_REASON_INVALID_NAME: {"userName": "tester"}"#
    );

    let actual: serde_json::Value =
        serde_json::from_str(&err.clone().into_status().to_json_string()).unwrap();

    let mut metadata = serde_json::Map::new();
    metadata.insert(
        "userName".to_string(),
        serde_json::Value::String("tester".to_string()),
    );
    let mut detail = serde_json::Map::new();
    detail.insert(
        "@type".to_string(),
        serde_json::Value::String("type.googleapis.com/google.rpc.ErrorInfo".to_string()),
    );
    detail.insert(
        "reason".to_string(),
        serde_json::Value::String("USER_ERROR_REASON_INVALID_NAME".to_string()),
    );
    detail.insert(
        "domain".to_string(),
        serde_json::Value::String("sky.example.com/User".to_string()),
    );
    detail.insert("metadata".to_string(), serde_json::Value::Object(metadata));
    let mut expected = serde_json::Map::new();
    expected.insert(
        "code".to_string(),
        serde_json::Value::String("INVALID_ARGUMENT".to_string()),
    );
    expected.insert(
        "message".to_string(),
        serde_json::Value::String(
            r#"USER_ERROR_REASON_INVALID_NAME: {"userName": "tester"}"#.to_string(),
        ),
    );
    expected.insert(
        "details".to_string(),
        serde_json::Value::Array(vec![serde_json::Value::Object(detail)]),
    );
    assert_eq!(actual, serde_json::Value::Object(expected));
}

#[test]
fn round_trip_domain_reason() {
    let err = UserError::new(UserErrorReason::InvalidPassword).with_user_name("tester");
    let decoded = UserError::from_status(err.into_status()).unwrap();
    assert_eq!(decoded.reason, UserErrorReason::InvalidPassword);
    assert_eq!(decoded.common_reason, CommonErrorReason::Unspecified);
    assert!(decoded.message.is_none());
    assert!(decoded.common_error.is_none());
    assert_eq!(
        decoded.metadata.unwrap().user_name,
        Some("tester".to_string())
    );
}

#[test]
fn round_trip_common_reason() {
    let err = UserError::new(CommonErrorReason::NotFound);
    let decoded = UserError::from_status(err.into_status()).unwrap();
    assert_eq!(decoded.reason, UserErrorReason::Unspecified);
    assert_eq!(decoded.common_reason, CommonErrorReason::NotFound);
    // No metadata was attached, so none comes back.
    assert!(decoded.metadata.is_none());
}

#[test]
fn empty_details_decode_to_nothing() {
    let status = Status {
        code: Code::InvalidArgument,
        message: "anything".to_string(),
        details: Vec::new(),
    };
    assert!(UserError::from_status(status).is_none());
}

#[test]
fn foreign_domain_decodes_to_nothing() {
    let err = UserError::new(UserErrorReason::InvalidName);
    let mut status = err.into_status();
    status.details[0].domain = "elsewhere.example.com".to_string();
    assert!(UserError::from_status(status).is_none());
}

#[test]
fn unknown_reason_name_decodes_to_nothing() {
    let err = UserError::new(UserErrorReason::InvalidName);
    let mut status = err.into_status();
    status.details[0].reason = "USER_ERROR_REASON_NO_SUCH_REASON".to_string();
    assert!(UserError::from_status(status).is_none());
}

#[test]
fn first_write_wins() {
    let err = UserError::new(UserErrorReason::InvalidName)
        .with_user_name("a")
        .with_user_name("b");
    assert_eq!(err.metadata.unwrap().user_name, Some("a".to_string()));
}

#[test]
fn message_takes_precedence() {
    let err = UserError::user_name("tester", UserErrorReason::InvalidName)
        .with_message("custom");
    assert_eq!(
        err.display_string(),
        "USER_ERROR_REASON_INVALID_NAME: custom"
    );
}

#[test]
fn common_error_text_is_second() {
    let err = UserError::new_common(CommonError::InvalidId);
    assert_eq!(
        err.display_string(),
        "COMMON_ERROR_REASON_INVALID_ID: invalid ID format"
    );
    let with_message = UserError::new_common(CommonError::InvalidId).with_message("custom");
    assert_eq!(
        with_message.display_string(),
        "COMMON_ERROR_REASON_INVALID_ID: custom"
    );
}

#[test]
fn bare_reason_displays_name_only() {
    let err = UserError::new(UserErrorReason::Unspecified);
    assert_eq!(err.display_string(), "USER_ERROR_REASON_UNSPECIFIED");
}

#[test]
fn detail_ordering() {
    let err = UserError::new_common(CommonError::AlreadyExists)
        .with_reason(UserErrorReason::InvalidName);
    let status = err.into_status();
    assert_eq!(status.details.len(), 2);
    assert_eq!(status.details[0].domain, "common.example.com");
    assert_eq!(
        status.details[0].reason,
        "COMMON_ERROR_REASON_ALREADY_EXISTS"
    );
    assert_eq!(status.details[1].domain, "sky.example.com/User");
    assert_eq!(status.details[1].reason, "USER_ERROR_REASON_INVALID_NAME");
}

#[test]
fn exhaustive_common_reason_mapping() {
    let cases = vec![
        (CommonError::ResourceNotFound, CommonErrorReason::ResourceNotFound),
        (CommonError::Unauthorized, CommonErrorReason::Unauthorized),
        (
            CommonError::RequiredFieldMissing,
            CommonErrorReason::RequiredFieldMissing,
        ),
        (
            CommonError::InvalidName {
                expected_format: "f".to_string(),
                name: "n".to_string(),
            },
            CommonErrorReason::InvalidName,
        ),
        (
            CommonError::InvalidNameAlternative {
                expected_format: "f".to_string(),
                alternative_expected_format: "g".to_string(),
                name: "n".to_string(),
            },
            CommonErrorReason::InvalidName,
        ),
        (
            CommonError::InvalidParent {
                expected: "e".to_string(),
                parent: "p".to_string(),
            },
            CommonErrorReason::InvalidParent,
        ),
        (
            CommonError::InvalidStringFormat {
                expected: "e".to_string(),
            },
            CommonErrorReason::InvalidStringFormat,
        ),
        (CommonError::InvalidId, CommonErrorReason::InvalidId),
        (CommonError::DuplicateId, CommonErrorReason::DuplicateId),
        (
            CommonError::InvalidDisplayName,
            CommonErrorReason::InvalidDisplayName,
        ),
        (CommonError::InvalidDateTime, CommonErrorReason::InvalidDateTime),
        (CommonError::InvalidEnumValue, CommonErrorReason::InvalidEnumValue),
        (
            CommonError::UnknownOneofVariant,
            CommonErrorReason::UnknownOneofVariant,
        ),
        (
            CommonError::InvalidNumericValue,
            CommonErrorReason::InvalidNumericValue,
        ),
        (
            CommonError::FailedConvertValue,
            CommonErrorReason::FailedConvertValue,
        ),
        (CommonError::NumericOutOfRange, CommonErrorReason::NumericOutOfRange),
        (CommonError::DuplicateValue, CommonErrorReason::DuplicateValue),
        (CommonError::AlreadyExists, CommonErrorReason::AlreadyExists),
        (CommonError::NotFound, CommonErrorReason::NotFound),
        (CommonError::TypeMismatch, CommonErrorReason::TypeMismatch),
    ];
    for (error, expected) in cases {
        let reason = get_common_error_reason(&error);
        assert_eq!(reason, expected);
        assert_ne!(reason, CommonErrorReason::Unspecified);
    }
}

#[test]
fn sky_error_wraps_user_error() {
    let err: SkyError = UserError::new(UserErrorReason::IncorrectCredentials).into();
    assert_eq!(
        err.display_string(),
        "USER_ERROR_REASON_INCORRECT_CREDENTIALS"
    );
}

#[test]
fn common_error_converts_to_user_error() {
    let err: UserError = CommonError::DuplicateValue.into();
    assert_eq!(err.common_reason, CommonErrorReason::DuplicateValue);
    assert_eq!(err.reason, UserErrorReason::Unspecified);
    assert!(matches!(err.common_error, Some(CommonError::DuplicateValue)));
}

#[test]
fn escaped_metadata_value() {
    let err = UserError::new(UserErrorReason::InvalidName).with_user_name("te\"st");
    assert_eq!(
        err.display_string(),
        "USER_ERROR_REASON_INVALID_NAME: {\"userName\": \"te\\\"st\"}"
    );
}

#[test]
fn json_message_escapes_round_trip() {
    let err = UserError::new(UserErrorReason::InvalidName).with_message("line\none\t\"two\"\\");
    let json = err.into_status().to_json_string();
    let value: serde_json::Value = serde_json::from_str(&json).unwrap();
    assert_eq!(
        value["message"],
        serde_json::Value::String(
            "USER_ERROR_REASON_INVALID_NAME: line\none\t\"two\"\\".to_string()
        )
    );
}

#[test]
fn error_json_is_its_status_json() {
    let err = UserError::new(UserErrorReason::InvalidName).with_user_name("tester");
    assert_eq!(
        err.to_json_string(),
        err.clone().into_status().to_json_string()
    );
}

#[test]
fn empty_metadata_omitted_from_json() {
    let err = UserError::new(UserErrorReason::InvalidName);
    let json = err.into_status().to_json_string();
    let value: serde_json::Value = serde_json::from_str(&json).unwrap();
    let detail = &value["details"][0];
    assert!(detail.get("metadata").is_none());
    assert_eq!(
        detail["reason"],
        serde_json::Value::String("USER_ERROR_REASON_INVALID_NAME".to_string())
    );
}
