//! The shared, cross-domain error kind enumeration.
//!
//! These failure kinds are not owned by any single business domain; every
//! domain error can carry one as its fallback classification. Each kind has
//! a deterministic human-readable description, available through
//! [`CommonError::display_string`].

use vstd::prelude::*;
use vstd::string::StringExecFns;

verus! {

/// A cross-domain failure kind, with its plain-value context.
#[derive(Debug)]
pub enum CommonError {
    ResourceNotFound,
    Unauthorized,
    RequiredFieldMissing,
    InvalidName { expected_format: String, name: String },
    InvalidNameAlternative {
        expected_format: String,
        alternative_expected_format: String,
        name: String,
    },
    InvalidParent { expected: String, parent: String },
    InvalidStringFormat { expected: String },
    InvalidId,
    DuplicateId,
    InvalidDisplayName,
    InvalidDateTime,
    InvalidEnumValue,
    UnknownOneofVariant,
    InvalidNumericValue,
    FailedConvertValue,
    NumericOutOfRange,
    DuplicateValue,
    AlreadyExists,
    NotFound,
    TypeMismatch,
}

impl CommonError {
    /// The deterministic description of each failure kind.
    pub open spec fn text_seq(self) -> Seq<char> {
        match self {
            CommonError::ResourceNotFound => "requested entity was not found"@,
            CommonError::Unauthorized => "unauthorized"@,
            CommonError::RequiredFieldMissing => "no value provided for required field"@,
            CommonError::InvalidName { expected_format, name } =>
                "expected `"@ + expected_format@ + "`, but got `"@ + name@ + "`."@,
            CommonError::InvalidNameAlternative {
                expected_format,
                alternative_expected_format,
                name,
            } =>
                "expected either `"@ + expected_format@ + "` or `"@
                    + alternative_expected_format@ + "`, but got `"@ + name@ + "`"@,
            CommonError::InvalidParent { expected, parent } =>
                "expected resource parent `"@ + expected@ + "`, but got `"@ + parent@ + "`"@,
            CommonError::InvalidStringFormat { expected } =>
                "expected a string in format `"@ + expected@ + "`"@,
            CommonError::InvalidId => "invalid ID format"@,
            CommonError::DuplicateId => "duplicate ID"@,
            CommonError::InvalidDisplayName => "invalid display name format"@,
            CommonError::InvalidDateTime => "invalid date time format"@,
            CommonError::InvalidEnumValue => "invalid enum value"@,
            CommonError::UnknownOneofVariant => "unknown oneof variant"@,
            CommonError::InvalidNumericValue => "invalid numeric value"@,
            CommonError::FailedConvertValue => "failed to convert value"@,
            CommonError::NumericOutOfRange => "out of range"@,
            CommonError::DuplicateValue => "duplicate value"@,
            CommonError::AlreadyExists => "already exists"@,
            CommonError::NotFound => "not found"@,
            CommonError::TypeMismatch => "type mismatch"@,
        }
    }

    /// Renders the deterministic description of this failure.
    pub fn display_string(&self) -> (r: String)
        ensures
            r@ == self.text_seq(),
    {
        match self {
            CommonError::ResourceNotFound => "requested entity was not found".to_owned(),
            CommonError::Unauthorized => "unauthorized".to_owned(),
            CommonError::RequiredFieldMissing => {
                "no value provided for required field".to_owned()
            },
            CommonError::InvalidName { expected_format, name } => {
                let mut s = "expected `".to_owned();
                s.append(expected_format.as_str());
                s.append("`, but got `");
                s.append(name.as_str());
                s.append("`.");
                s
            },
            CommonError::InvalidNameAlternative {
                expected_format,
                alternative_expected_format,
                name,
            } => {
                let mut s = "expected either `".to_owned();
                s.append(expected_format.as_str());
                s.append("` or `");
                s.append(alternative_expected_format.as_str());
                s.append("`, but got `");
                s.append(name.as_str());
                s.append("`");
                s
            },
            CommonError::InvalidParent { expected, parent } => {
                let mut s = "expected resource parent `".to_owned();
                s.append(expected.as_str());
                s.append("`, but got `");
                s.append(parent.as_str());
                s.append("`");
                s
            },
            CommonError::InvalidStringFormat { expected } => {
                let mut s = "expected a string in format `".to_owned();
                s.append(expected.as_str());
                s.append("`");
                s
            },
            CommonError::InvalidId => "invalid ID format".to_owned(),
            CommonError::DuplicateId => "duplicate ID".to_owned(),
            CommonError::InvalidDisplayName => "invalid display name format".to_owned(),
            CommonError::InvalidDateTime => "invalid date time format".to_owned(),
            CommonError::InvalidEnumValue => "invalid enum value".to_owned(),
            CommonError::UnknownOneofVariant => "unknown oneof variant".to_owned(),
            CommonError::InvalidNumericValue => "invalid numeric value".to_owned(),
            CommonError::FailedConvertValue => "failed to convert value".to_owned(),
            CommonError::NumericOutOfRange => "out of range".to_owned(),
            CommonError::DuplicateValue => "duplicate value".to_owned(),
            CommonError::AlreadyExists => "already exists".to_owned(),
            CommonError::NotFound => "not found".to_owned(),
            CommonError::TypeMismatch => "type mismatch".to_owned(),
        }
    }
}

impl Clone for CommonError {
    /// Clones the failure kind together with its context, unchanged.
    fn clone(&self) -> (r: Self)
        ensures
            r == *self,
    {
        match self {
            CommonError::ResourceNotFound => CommonError::ResourceNotFound,
            CommonError::Unauthorized => CommonError::Unauthorized,
            CommonError::RequiredFieldMissing => CommonError::RequiredFieldMissing,
            CommonError::InvalidName { expected_format, name } => CommonError::InvalidName {
                expected_format: expected_format.clone(),
                name: name.clone(),
            },
            CommonError::InvalidNameAlternative {
                expected_format,
                alternative_expected_format,
                name,
            } => CommonError::InvalidNameAlternative {
                expected_format: expected_format.clone(),
                alternative_expected_format: alternative_expected_format.clone(),
                name: name.clone(),
            },
            CommonError::InvalidParent { expected, parent } => CommonError::InvalidParent {
                expected: expected.clone(),
                parent: parent.clone(),
            },
            CommonError::InvalidStringFormat { expected } => CommonError::InvalidStringFormat {
                expected: expected.clone(),
            },
            CommonError::InvalidId => CommonError::InvalidId,
            CommonError::DuplicateId => CommonError::DuplicateId,
            CommonError::InvalidDisplayName => CommonError::InvalidDisplayName,
            CommonError::InvalidDateTime => CommonError::InvalidDateTime,
            CommonError::InvalidEnumValue => CommonError::InvalidEnumValue,
            CommonError::UnknownOneofVariant => CommonError::UnknownOneofVariant,
            CommonError::InvalidNumericValue => CommonError::InvalidNumericValue,
            CommonError::FailedConvertValue => CommonError::FailedConvertValue,
            CommonError::NumericOutOfRange => CommonError::NumericOutOfRange,
            CommonError::DuplicateValue => CommonError::DuplicateValue,
            CommonError::AlreadyExists => CommonError::AlreadyExists,
            CommonError::NotFound => CommonError::NotFound,
            CommonError::TypeMismatch => CommonError::TypeMismatch,
        }
    }
}

} // verus!
