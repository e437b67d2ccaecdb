//! Closed reason enumerations and their wire-name tables.
//!
//! Every reason is rendered on the wire as an uppercase snake-case name.
//! `name_seq` is the mathematical name table; `as_str_name` and
//! `from_str_name` are the executable encoder and decoder for it.

use vstd::prelude::*;

verus! {

/// Cross-domain classification of a failure, shared by every error domain.
#[derive(Clone, Copy, Debug, PartialEq, Eq, Structural)]
pub enum CommonErrorReason {
    Unspecified,
    ResourceNotFound,
    Unauthorized,
    RequiredFieldMissing,
    InvalidName,
    InvalidParent,
    InvalidStringFormat,
    InvalidId,
    DuplicateId,
    InvalidDisplayName,
    InvalidDateTime,
    InvalidEnumValue,
    UnknownOneofVariant,
    InvalidNumericValue,
    FailedConvertValue,
    NumericOutOfRange,
    DuplicateValue,
    AlreadyExists,
    NotFound,
    TypeMismatch,
}

impl CommonErrorReason {
    /// The wire name of each reason.
    pub open spec fn name_seq(self) -> Seq<char> {
        match self {
            CommonErrorReason::Unspecified => "COMMON_ERROR_REASON_UNSPECIFIED"@,
            CommonErrorReason::ResourceNotFound => "COMMON_ERROR_REASON_RESOURCE_NOT_FOUND"@,
            CommonErrorReason::Unauthorized => "COMMON_ERROR_REASON_UNAUTHORIZED"@,
            CommonErrorReason::RequiredFieldMissing => "COMMON_ERROR_REASON_REQUIRED_FIELD_MISSING"@,
            CommonErrorReason::InvalidName => "COMMON_ERROR_REASON_INVALID_NAME"@,
            CommonErrorReason::InvalidParent => "COMMON_ERROR_REASON_INVALID_PARENT"@,
            CommonErrorReason::InvalidStringFormat => "COMMON_ERROR_REASON_INVALID_STRING_FORMAT"@,
            CommonErrorReason::InvalidId => "COMMON_ERROR_REASON_INVALID_ID"@,
            CommonErrorReason::DuplicateId => "COMMON_ERROR_REASON_DUPLICATE_ID"@,
            CommonErrorReason::InvalidDisplayName => "COMMON_ERROR_REASON_INVALID_DISPLAY_NAME"@,
            CommonErrorReason::InvalidDateTime => "COMMON_ERROR_REASON_INVALID_DATE_TIME"@,
            CommonErrorReason::InvalidEnumValue => "COMMON_ERROR_REASON_INVALID_ENUM_VALUE"@,
            CommonErrorReason::UnknownOneofVariant => "COMMON_ERROR_REASON_UNKNOWN_ONEOF_VARIANT"@,
            CommonErrorReason::InvalidNumericValue => "COMMON_ERROR_REASON_INVALID_NUMERIC_VALUE"@,
            CommonErrorReason::FailedConvertValue => "COMMON_ERROR_REASON_FAILED_CONVERT_VALUE"@,
            CommonErrorReason::NumericOutOfRange => "COMMON_ERROR_REASON_NUMERIC_OUT_OF_RANGE"@,
            CommonErrorReason::DuplicateValue => "COMMON_ERROR_REASON_DUPLICATE_VALUE"@,
            CommonErrorReason::AlreadyExists => "COMMON_ERROR_REASON_ALREADY_EXISTS"@,
            CommonErrorReason::NotFound => "COMMON_ERROR_REASON_NOT_FOUND"@,
            CommonErrorReason::TypeMismatch => "COMMON_ERROR_REASON_TYPE_MISMATCH"@,
        }
    }

    /// Decoding a wire name, as a function of the name alone.
    pub open spec fn from_name_spec(s: Seq<char>) -> Option<CommonErrorReason> {
        if s == CommonErrorReason::Unspecified.name_seq() {
            Some(CommonErrorReason::Unspecified)
        } else if s == CommonErrorReason::ResourceNotFound.name_seq() {
            Some(CommonErrorReason::ResourceNotFound)
        } else if s == CommonErrorReason::Unauthorized.name_seq() {
            Some(CommonErrorReason::Unauthorized)
        } else if s == CommonErrorReason::RequiredFieldMissing.name_seq() {
            Some(CommonErrorReason::RequiredFieldMissing)
        } else if s == CommonErrorReason::InvalidName.name_seq() {
            Some(CommonErrorReason::InvalidName)
        } else if s == CommonErrorReason::InvalidParent.name_seq() {
            Some(CommonErrorReason::InvalidParent)
        } else if s == CommonErrorReason::InvalidStringFormat.name_seq() {
            Some(CommonErrorReason::InvalidStringFormat)
        } else if s == CommonErrorReason::InvalidId.name_seq() {
            Some(CommonErrorReason::InvalidId)
        } else if s == CommonErrorReason::DuplicateId.name_seq() {
            Some(CommonErrorReason::DuplicateId)
        } else if s == CommonErrorReason::InvalidDisplayName.name_seq() {
            Some(CommonErrorReason::InvalidDisplayName)
        } else if s == CommonErrorReason::InvalidDateTime.name_seq() {
            Some(CommonErrorReason::InvalidDateTime)
        } else if s == CommonErrorReason::InvalidEnumValue.name_seq() {
            Some(CommonErrorReason::InvalidEnumValue)
        } else if s == CommonErrorReason::UnknownOneofVariant.name_seq() {
            Some(CommonErrorReason::UnknownOneofVariant)
        } else if s == CommonErrorReason::InvalidNumericValue.name_seq() {
            Some(CommonErrorReason::InvalidNumericValue)
        } else if s == CommonErrorReason::FailedConvertValue.name_seq() {
            Some(CommonErrorReason::FailedConvertValue)
        } else if s == CommonErrorReason::NumericOutOfRange.name_seq() {
            Some(CommonErrorReason::NumericOutOfRange)
        } else if s == CommonErrorReason::DuplicateValue.name_seq() {
            Some(CommonErrorReason::DuplicateValue)
        } else if s == CommonErrorReason::AlreadyExists.name_seq() {
            Some(CommonErrorReason::AlreadyExists)
        } else if s == CommonErrorReason::NotFound.name_seq() {
            Some(CommonErrorReason::NotFound)
        } else if s == CommonErrorReason::TypeMismatch.name_seq() {
            Some(CommonErrorReason::TypeMismatch)
        } else {
            None
        }
    }

    /// Renders the reason's wire name.
    pub fn as_str_name(&self) -> (r: &'static str)
        ensures
            r@ == self.name_seq(),
    {
        match self {
            CommonErrorReason::Unspecified => "COMMON_ERROR_REASON_UNSPECIFIED",
            CommonErrorReason::ResourceNotFound => "COMMON_ERROR_REASON_RESOURCE_NOT_FOUND",
            CommonErrorReason::Unauthorized => "COMMON_ERROR_REASON_UNAUTHORIZED",
            CommonErrorReason::RequiredFieldMissing => "COMMON_ERROR_REASON_REQUIRED_FIELD_MISSING",
            CommonErrorReason::InvalidName => "COMMON_ERROR_REASON_INVALID_NAME",
            CommonErrorReason::InvalidParent => "COMMON_ERROR_REASON_INVALID_PARENT",
            CommonErrorReason::InvalidStringFormat => "COMMON_ERROR_REASON_INVALID_STRING_FORMAT",
            CommonErrorReason::InvalidId => "COMMON_ERROR_REASON_INVALID_ID",
            CommonErrorReason::DuplicateId => "COMMON_ERROR_REASON_DUPLICATE_ID",
            CommonErrorReason::InvalidDisplayName => "COMMON_ERROR_REASON_INVALID_DISPLAY_NAME",
            CommonErrorReason::InvalidDateTime => "COMMON_ERROR_REASON_INVALID_DATE_TIME",
            CommonErrorReason::InvalidEnumValue => "COMMON_ERROR_REASON_INVALID_ENUM_VALUE",
            CommonErrorReason::UnknownOneofVariant => "COMMON_ERROR_REASON_UNKNOWN_ONEOF_VARIANT",
            CommonErrorReason::InvalidNumericValue => "COMMON_ERROR_REASON_INVALID_NUMERIC_VALUE",
            CommonErrorReason::FailedConvertValue => "COMMON_ERROR_REASON_FAILED_CONVERT_VALUE",
            CommonErrorReason::NumericOutOfRange => "COMMON_ERROR_REASON_NUMERIC_OUT_OF_RANGE",
            CommonErrorReason::DuplicateValue => "COMMON_ERROR_REASON_DUPLICATE_VALUE",
            CommonErrorReason::AlreadyExists => "COMMON_ERROR_REASON_ALREADY_EXISTS",
            CommonErrorReason::NotFound => "COMMON_ERROR_REASON_NOT_FOUND",
            CommonErrorReason::TypeMismatch => "COMMON_ERROR_REASON_TYPE_MISMATCH",
        }
    }

    /// Decodes a wire name back into a reason.
    pub fn from_str_name(value: &str) -> (r: Option<CommonErrorReason>)
        ensures
            r == CommonErrorReason::from_name_spec(value@),
    {
        let v = value.to_owned();
        if v == "COMMON_ERROR_REASON_UNSPECIFIED".to_owned() {
            Some(CommonErrorReason::Unspecified)
        } else if v == "COMMON_ERROR_REASON_RESOURCE_NOT_FOUND".to_owned() {
            Some(CommonErrorReason::ResourceNotFound)
        } else if v == "COMMON_ERROR_REASON_UNAUTHORIZED".to_owned() {
            Some(CommonErrorReason::Unauthorized)
        } else if v == "COMMON_ERROR_REASON_REQUIRED_FIELD_MISSING".to_owned() {
            Some(CommonErrorReason::RequiredFieldMissing)
        } else if v == "COMMON_ERROR_REASON_INVALID_NAME".to_owned() {
            Some(CommonErrorReason::InvalidName)
        } else if v == "COMMON_ERROR_REASON_INVALID_PARENT".to_owned() {
            Some(CommonErrorReason::InvalidParent)
        } else if v == "COMMON_ERROR_REASON_INVALID_STRING_FORMAT".to_owned() {
            Some(CommonErrorReason::InvalidStringFormat)
        } else if v == "COMMON_ERROR_REASON_INVALID_ID".to_owned() {
            Some(CommonErrorReason::InvalidId)
        } else if v == "COMMON_ERROR_REASON_DUPLICATE_ID".to_owned() {
            Some(CommonErrorReason::DuplicateId)
        } else if v == "COMMON_ERROR_REASON_INVALID_DISPLAY_NAME".to_owned() {
            Some(CommonErrorReason::InvalidDisplayName)
        } else if v == "COMMON_ERROR_REASON_INVALID_DATE_TIME".to_owned() {
            Some(CommonErrorReason::InvalidDateTime)
        } else if v == "COMMON_ERROR_REASON_INVALID_ENUM_VALUE".to_owned() {
            Some(CommonErrorReason::InvalidEnumValue)
        } else if v == "COMMON_ERROR_REASON_UNKNOWN_ONEOF_VARIANT".to_owned() {
            Some(CommonErrorReason::UnknownOneofVariant)
        } else if v == "COMMON_ERROR_REASON_INVALID_NUMERIC_VALUE".to_owned() {
            Some(CommonErrorReason::InvalidNumericValue)
        } else if v == "COMMON_ERROR_REASON_FAILED_CONVERT_VALUE".to_owned() {
            Some(CommonErrorReason::FailedConvertValue)
        } else if v == "COMMON_ERROR_REASON_NUMERIC_OUT_OF_RANGE".to_owned() {
            Some(CommonErrorReason::NumericOutOfRange)
        } else if v == "COMMON_ERROR_REASON_DUPLICATE_VALUE".to_owned() {
            Some(CommonErrorReason::DuplicateValue)
        } else if v == "COMMON_ERROR_REASON_ALREADY_EXISTS".to_owned() {
            Some(CommonErrorReason::AlreadyExists)
        } else if v == "COMMON_ERROR_REASON_NOT_FOUND".to_owned() {
            Some(CommonErrorReason::NotFound)
        } else if v == "COMMON_ERROR_REASON_TYPE_MISMATCH".to_owned() {
            Some(CommonErrorReason::TypeMismatch)
        } else {
            None
        }
    }
}

/// Every common reason's wire name decodes back to that reason.
pub proof fn lemma_common_name_round_trip(r: CommonErrorReason)
    ensures
        CommonErrorReason::from_name_spec(r.name_seq()) == Some(r),
{
    reveal_strlit("COMMON_ERROR_REASON_UNSPECIFIED");
    reveal_strlit("COMMON_ERROR_REASON_RESOURCE_NOT_FOUND");
    reveal_strlit("COMMON_ERROR_REASON_UNAUTHORIZED");
    reveal_strlit("COMMON_ERROR_REASON_REQUIRED_FIELD_MISSING");
    reveal_strlit("COMMON_ERROR_REASON_INVALID_NAME");
    reveal_strlit("COMMON_ERROR_REASON_INVALID_PARENT");
    reveal_strlit("COMMON_ERROR_REASON_INVALID_STRING_FORMAT");
    reveal_strlit("COMMON_ERROR_REASON_INVALID_ID");
    reveal_strlit("COMMON_ERROR_REASON_DUPLICATE_ID");
    reveal_strlit("COMMON_ERROR_REASON_INVALID_DISPLAY_NAME");
    reveal_strlit("COMMON_ERROR_REASON_INVALID_DATE_TIME");
    reveal_strlit("COMMON_ERROR_REASON_INVALID_ENUM_VALUE");
    reveal_strlit("COMMON_ERROR_REASON_UNKNOWN_ONEOF_VARIANT");
    reveal_strlit("COMMON_ERROR_REASON_INVALID_NUMERIC_VALUE");
    reveal_strlit("COMMON_ERROR_REASON_FAILED_CONVERT_VALUE");
    reveal_strlit("COMMON_ERROR_REASON_NUMERIC_OUT_OF_RANGE");
    reveal_strlit("COMMON_ERROR_REASON_DUPLICATE_VALUE");
    reveal_strlit("COMMON_ERROR_REASON_ALREADY_EXISTS");
    reveal_strlit("COMMON_ERROR_REASON_NOT_FOUND");
    reveal_strlit("COMMON_ERROR_REASON_TYPE_MISMATCH");
    assert("COMMON_ERROR_REASON_UNSPECIFIED"@.len() == 31);
    assert("COMMON_ERROR_REASON_RESOURCE_NOT_FOUND"@.len() == 38);
    assert("COMMON_ERROR_REASON_UNAUTHORIZED"@.len() == 32);
    assert("COMMON_ERROR_REASON_REQUIRED_FIELD_MISSING"@.len() == 42);
    assert("COMMON_ERROR_REASON_INVALID_NAME"@.len() == 32);
    assert("COMMON_ERROR_REASON_INVALID_PARENT"@.len() == 34);
    assert("COMMON_ERROR_REASON_INVALID_STRING_FORMAT"@.len() == 41);
    assert("COMMON_ERROR_REASON_INVALID_ID"@.len() == 30);
    assert("COMMON_ERROR_REASON_DUPLICATE_ID"@.len() == 32);
    assert("COMMON_ERROR_REASON_INVALID_DISPLAY_NAME"@.len() == 40);
    assert("COMMON_ERROR_REASON_INVALID_DATE_TIME"@.len() == 37);
    assert("COMMON_ERROR_REASON_INVALID_ENUM_VALUE"@.len() == 38);
    assert("COMMON_ERROR_REASON_UNKNOWN_ONEOF_VARIANT"@.len() == 41);
    assert("COMMON_ERROR_REASON_INVALID_NUMERIC_VALUE"@.len() == 41);
    assert("COMMON_ERROR_REASON_FAILED_CONVERT_VALUE"@.len() == 40);
    assert("COMMON_ERROR_REASON_NUMERIC_OUT_OF_RANGE"@.len() == 40);
    assert("COMMON_ERROR_REASON_DUPLICATE_VALUE"@.len() == 35);
    assert("COMMON_ERROR_REASON_ALREADY_EXISTS"@.len() == 34);
    assert("COMMON_ERROR_REASON_NOT_FOUND"@.len() == 29);
    assert("COMMON_ERROR_REASON_TYPE_MISMATCH"@.len() == 33);
    assert("COMMON_ERROR_REASON_UNAUTHORIZED"@[20] == 'U');
    assert("COMMON_ERROR_REASON_INVALID_NAME"@[20] == 'I');
    assert("COMMON_ERROR_REASON_DUPLICATE_ID"@[20] == 'D');
    assert("COMMON_ERROR_REASON_RESOURCE_NOT_FOUND"@[20] == 'R');
    assert("COMMON_ERROR_REASON_INVALID_ENUM_VALUE"@[20] == 'I');
    assert("COMMON_ERROR_REASON_INVALID_STRING_FORMAT"@[20] == 'I');
    assert("COMMON_ERROR_REASON_UNKNOWN_ONEOF_VARIANT"@[20] == 'U');
    assert("COMMON_ERROR_REASON_INVALID_NUMERIC_VALUE"@[20] == 'I');
    assert("COMMON_ERROR_REASON_INVALID_STRING_FORMAT"@[28] == 'S');
    assert("COMMON_ERROR_REASON_INVALID_NUMERIC_VALUE"@[28] == 'N');
    assert("COMMON_ERROR_REASON_INVALID_DISPLAY_NAME"@[20] == 'I');
    assert("COMMON_ERROR_REASON_FAILED_CONVERT_VALUE"@[20] == 'F');
    assert("COMMON_ERROR_REASON_NUMERIC_OUT_OF_RANGE"@[20] == 'N');
    assert("COMMON_ERROR_REASON_INVALID_PARENT"@[20] == 'I');
    assert("COMMON_ERROR_REASON_ALREADY_EXISTS"@[20] == 'A');
}

/// Every user reason's wire name decodes back to that reason.
pub proof fn lemma_user_name_round_trip(r: UserErrorReason)
    ensures
        UserErrorReason::from_name_spec(r.name_seq()) == Some(r),
{
    reveal_strlit("USER_ERROR_REASON_UNSPECIFIED");
    reveal_strlit("USER_ERROR_REASON_INVALID_NAME");
    reveal_strlit("USER_ERROR_REASON_INVALID_PASSWORD");
    reveal_strlit("USER_ERROR_REASON_INCORRECT_CREDENTIALS");
    assert("USER_ERROR_REASON_UNSPECIFIED"@.len() == 29);
    assert("USER_ERROR_REASON_INVALID_NAME"@.len() == 30);
    assert("USER_ERROR_REASON_INVALID_PASSWORD"@.len() == 34);
    assert("USER_ERROR_REASON_INCORRECT_CREDENTIALS"@.len() == 39);
    match r {
        UserErrorReason::Unspecified => {
            assert(UserErrorReason::from_name_spec(r.name_seq()) == Some(r));
        },
        UserErrorReason::InvalidName => {
            assert(UserErrorReason::from_name_spec(r.name_seq()) == Some(r));
        },
        UserErrorReason::InvalidPassword => {
            assert(UserErrorReason::from_name_spec(r.name_seq()) == Some(r));
        },
        UserErrorReason::IncorrectCredentials => {
            assert(UserErrorReason::from_name_spec(r.name_seq()) == Some(r));
        },
    }
}

/// Domain-specific classification of a failure within the User domain.
#[derive(Clone, Copy, Debug, PartialEq, Eq, Structural)]
pub enum UserErrorReason {
    Unspecified,
    InvalidName,
    InvalidPassword,
    IncorrectCredentials,
}

impl UserErrorReason {
    /// The wire name of each reason.
    pub open spec fn name_seq(self) -> Seq<char> {
        match self {
            UserErrorReason::Unspecified => "USER_ERROR_REASON_UNSPECIFIED"@,
            UserErrorReason::InvalidName => "USER_ERROR_REASON_INVALID_NAME"@,
            UserErrorReason::InvalidPassword => "USER_ERROR_REASON_INVALID_PASSWORD"@,
            UserErrorReason::IncorrectCredentials => "USER_ERROR_REASON_INCORRECT_CREDENTIALS"@,
        }
    }

    /// Decoding a wire name, as a function of the name alone.
    pub open spec fn from_name_spec(s: Seq<char>) -> Option<UserErrorReason> {
        if s == UserErrorReason::Unspecified.name_seq() {
            Some(UserErrorReason::Unspecified)
        } else if s == UserErrorReason::InvalidName.name_seq() {
            Some(UserErrorReason::InvalidName)
        } else if s == UserErrorReason::InvalidPassword.name_seq() {
            Some(UserErrorReason::InvalidPassword)
        } else if s == UserErrorReason::IncorrectCredentials.name_seq() {
            Some(UserErrorReason::IncorrectCredentials)
        } else {
            None
        }
    }

    /// Renders the reason's wire name.
    pub fn as_str_name(&self) -> (r: &'static str)
        ensures
            r@ == self.name_seq(),
    {
        match self {
            UserErrorReason::Unspecified => "USER_ERROR_REASON_UNSPECIFIED",
            UserErrorReason::InvalidName => "USER_ERROR_REASON_INVALID_NAME",
            UserErrorReason::InvalidPassword => "USER_ERROR_REASON_INVALID_PASSWORD",
            UserErrorReason::IncorrectCredentials => "USER_ERROR_REASON_INCORRECT_CREDENTIALS",
        }
    }

    /// Decodes a wire name back into a reason.
    pub fn from_str_name(value: &str) -> (r: Option<UserErrorReason>)
        ensures
            r == UserErrorReason::from_name_spec(value@),
    {
        let v = value.to_owned();
        if v == "USER_ERROR_REASON_UNSPECIFIED".to_owned() {
            Some(UserErrorReason::Unspecified)
        } else if v == "USER_ERROR_REASON_INVALID_NAME".to_owned() {
            Some(UserErrorReason::InvalidName)
        } else if v == "USER_ERROR_REASON_INVALID_PASSWORD".to_owned() {
            Some(UserErrorReason::InvalidPassword)
        } else if v == "USER_ERROR_REASON_INCORRECT_CREDENTIALS".to_owned() {
            Some(UserErrorReason::IncorrectCredentials)
        } else {
            None
        }
    }
}

} // verus!
