use grpc_sky_api::common::CommonError;
use grpc_sky_api::config::{DatabaseConfig, DistributionConfig, MySqlDatabaseConfig};
use grpc_sky_api::context::{parse_user_resource_name, Context};
use grpc_sky_api::dto::{parse, PostDto, PostRequestDto, SignUpRequestDto, UserDto};
use grpc_sky_api::reason::{CommonErrorReason, UserErrorReason};
use grpc_sky_api::sign_up_command::{validate_sign_up, SignUpCommandInput, SignUpCommandOutput};
use grpc_sky_api::create_command::{CreatePostCommandInput, CreatePostCommandOutput};

#[test]
fn password_parse_accepts_long_enough() {
    assert_eq!(parse("123456".to_string()).unwrap(), "123456");
    assert_eq!(grpc_sky_api::dto::write("123456".to_string()), "123456");
}

#[test]
fn password_parse_rejects_short() {
    let err = parse("abc".to_string()).unwrap_err();
    assert_eq!(err.reason, UserErrorReason::InvalidPassword);
    assert_eq!(err.common_reason, CommonErrorReason::Unspecified);
}

#[test]
fn name_rule_accepts_and_rejects() {
    assert!(grpc_sky_api::dto::validate_name("tester"));
    assert!(grpc_sky_api::dto::validate_name("a1_2345678901234"));
    assert!(!grpc_sky_api::dto::validate_name(""));
    assert!(!grpc_sky_api::dto::validate_name("_"));
    assert!(!grpc_sky_api::dto::validate_name("1abc"));
    assert!(!grpc_sky_api::dto::validate_name("ab"));
    assert!(!grpc_sky_api::dto::validate_name("a1_23456789012345"));
    assert!(!grpc_sky_api::dto::validate_name("has space"));
}

#[test]
fn sign_up_request_admission() {
    assert!(grpc_sky_api::dto::validate_sign_up_request("tester", "123456").is_ok());

    let err = grpc_sky_api::dto::validate_sign_up_request("", "123456").unwrap_err();
    assert_eq!(err.common_reason, CommonErrorReason::RequiredFieldMissing);
    assert!(matches!(
        err.common_error,
        Some(CommonError::RequiredFieldMissing)
    ));

    let err = grpc_sky_api::dto::validate_sign_up_request("_", "123456").unwrap_err();
    assert_eq!(err.common_reason, CommonErrorReason::InvalidStringFormat);
    match err.common_error {
        Some(CommonError::InvalidStringFormat { expected }) => {
            assert_eq!(expected, "^[a-zA-Z][a-zA-Z0-9_]{2,15}$");
        }
        other => panic!("wrong common error: {other:?}"),
    }

    let err = grpc_sky_api::dto::validate_sign_up_request("tester", "abc").unwrap_err();
    assert_eq!(err.reason, UserErrorReason::InvalidPassword);
}

#[test]
fn sign_up_rejects_taken_name_first() {
    let err = validate_sign_up(true, "short").unwrap_err();
    assert_eq!(err.common_reason, CommonErrorReason::AlreadyExists);
    assert!(matches!(err.common_error, Some(CommonError::AlreadyExists)));
    let err = validate_sign_up(false, "short").unwrap_err();
    assert_eq!(err.reason, UserErrorReason::InvalidPassword);
    assert!(validate_sign_up(false, "123456").is_ok());
}

#[test]
fn authenticate_demands_identity() {
    let known = Context { user_id: Some(42) };
    assert_eq!(known.authenticate().unwrap(), 42);
    let anonymous = Context { user_id: None };
    let err = anonymous.authenticate().unwrap_err();
    assert_eq!(err.common_reason, CommonErrorReason::Unauthorized);
}

#[test]
fn user_resource_name_parsing() {
    assert_eq!(parse_user_resource_name("users/42"), Some("42"));
    assert_eq!(parse_user_resource_name("users/"), None);
    assert_eq!(parse_user_resource_name("user/42"), None);
    assert_eq!(parse_user_resource_name(""), None);
}

#[test]
fn plain_value_records_hold_their_fields() {
    let sign_up = SignUpRequestDto {
        name: "tester".to_string(),
        password: "123456".to_string(),
    };
    assert_eq!(sign_up.name, "tester");
    assert_eq!(sign_up.password, "123456");
    let post = PostRequestDto {
        content: "hello".to_string(),
    };
    assert_eq!(post.content, "hello");
    let input = SignUpCommandInput {
        name: "tester",
        password: "123456",
    };
    assert_eq!(input.name, "tester");
    let output = SignUpCommandOutput { user_id: 7 };
    assert_eq!(output.user_id, 7);
    let input = CreatePostCommandInput { content: "hello" };
    assert_eq!(input.content, "hello");
    let output = CreatePostCommandOutput {
        post_id: 9,
        create_time: 123,
    };
    assert_eq!(output.post_id, 9);
    assert_eq!(output.create_time, 123);
    let user = UserDto {
        id: 7,
        name: "tester".to_string(),
    };
    let user_copy = user.clone();
    assert_eq!(user_copy.id, 7);
    assert_eq!(user_copy.name, "tester");
    let post = PostDto {
        id: 9,
        create_time: Some(123),
        content: "hello".to_string(),
    };
    let post_copy = post.clone();
    assert_eq!(post_copy.create_time, Some(123));
    assert_eq!(post_copy.content, "hello");
}

#[test]
fn config_values_clone_unchanged() {
    let distribution = DistributionConfig {
        name: "sky".to_string(),
        version: "1.2.3".to_string(),
    };
    let copy = distribution.clone();
    assert_eq!(copy.name, "sky");
    assert_eq!(copy.version, "1.2.3");
    let database = DatabaseConfig::MySql(MySqlDatabaseConfig {
        connection: "mysql://localhost".to_string(),
    });
    match database.clone() {
        DatabaseConfig::MySql(c) => assert_eq!(c.connection, "mysql://localhost"),
        DatabaseConfig::Memory => panic!("wrong database kind"),
    }
    assert!(matches!(DatabaseConfig::Memory.clone(), DatabaseConfig::Memory));
}
