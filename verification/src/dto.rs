//! Request and resource transfer objects, with their field rules.
//!
//! A sign-up name is a letter followed by two to fifteen letters, digits or
//! underscores; a password is at least six bytes. The admission decision
//! checks the fields in a fixed order and reports the first violation.

use vstd::prelude::*;
use vstd::string::StrSliceExecFns;
use vstd::utf8::encode_utf8;
use crate::common::CommonError;
use crate::error::{common_reason_of, UserError};
use crate::reason::{CommonErrorReason, UserErrorReason};

verus! {

/// A sign-up request, already shaped for the domain.
#[derive(Debug)]
pub struct SignUpRequestDto {
    pub name: String,
    pub password: String,
}

/// A post-creation request, already shaped for the domain.
#[derive(Debug)]
pub struct PostRequestDto {
    pub content: String,
}

/// A user resource as it leaves the service: the identifier as a plain
/// 128-bit value.
#[derive(Debug)]
pub struct UserDto {
    pub id: u128,
    pub name: String,
}

/// A post resource as it leaves the service: the identifier as a plain
/// 128-bit value and the creation time, when known, as a plain tick count.
#[derive(Debug)]
pub struct PostDto {
    pub id: u128,
    pub create_time: Option<i64>,
    pub content: String,
}

impl Clone for SignUpRequestDto {
    /// Clones the request, value for value.
    fn clone(&self) -> (r: Self)
        ensures
            r == *self,
    {
        SignUpRequestDto { name: self.name.clone(), password: self.password.clone() }
    }
}

impl Clone for PostRequestDto {
    /// Clones the request, value for value.
    fn clone(&self) -> (r: Self)
        ensures
            r == *self,
    {
        PostRequestDto { content: self.content.clone() }
    }
}

impl Clone for UserDto {
    /// Clones the resource, value for value.
    fn clone(&self) -> (r: Self)
        ensures
            r == *self,
    {
        UserDto { id: self.id, name: self.name.clone() }
    }
}

impl Clone for PostDto {
    /// Clones the resource, value for value.
    fn clone(&self) -> (r: Self)
        ensures
            r == *self,
    {
        PostDto { id: self.id, create_time: self.create_time, content: self.content.clone() }
    }
}

/// A character that may start a sign-up name: an ASCII letter.
pub open spec fn is_name_start(c: char) -> bool {
    ('a' <= c && c <= 'z') || ('A' <= c && c <= 'Z')
}

/// A character that may continue a sign-up name: an ASCII letter, a digit,
/// or an underscore.
pub open spec fn is_name_char(c: char) -> bool {
    is_name_start(c) || ('0' <= c && c <= '9') || c == '_'
}

/// The sign-up name rule: a letter, then two to fifteen more letters,
/// digits or underscores.
pub open spec fn valid_sign_up_name(s: Seq<char>) -> bool {
    &&& 3 <= s.len() <= 16
    &&& is_name_start(s[0])
    &&& forall|i: int| 1 <= i < s.len() ==> is_name_char(#[trigger] s[i])
}

/// Checks a sign-up name against the name rule.
pub fn validate_name(name: &str) -> (r: bool)
    ensures
        r == valid_sign_up_name(name@),
{
    let n = name.unicode_len();
    if n < 3 || n > 16 {
        return false;
    }
    let first = name.get_char(0);
    if !(('a' <= first && first <= 'z') || ('A' <= first && first <= 'Z')) {
        return false;
    }
    let mut i: usize = 1;
    while i < n
        invariant
            1 <= i <= n,
            n == name@.len(),
            3 <= n <= 16,
            is_name_start(name@[0]),
            forall|j: int| 1 <= j < i ==> is_name_char(#[trigger] name@[j]),
        decreases n - i,
    {
        let c = name.get_char(i);
        if !(('a' <= c && c <= 'z') || ('A' <= c && c <= 'Z') || ('0' <= c && c <= '9') || c
            == '_') {
            return false;
        }
        i = i + 1;
    }
    true
}

/// Decides whether a sign-up request is admitted, in the order the fields
/// are checked: a missing name first, then the name rule, then the
/// password rule. The first violation is reported as a domain error.
pub fn validate_sign_up_request(name: &str, password: &str) -> (r: Result<(), UserError>)
    ensures
        name@.len() == 0 ==> (r matches Err(e) && e.common_reason == common_reason_of(
            CommonError::RequiredFieldMissing,
        ) && e.common_error == Some(CommonError::RequiredFieldMissing)),
        name@.len() > 0 && !valid_sign_up_name(name@) ==> ({
            &&& r matches Err(e)
            &&& e.common_reason == CommonErrorReason::InvalidStringFormat
            &&& e.common_error matches Some(CommonError::InvalidStringFormat { expected })
            &&& expected@ == "^[a-zA-Z][a-zA-Z0-9_]{2,15}$"@
        }),
        valid_sign_up_name(name@) && encode_utf8(password@).len() < 6 ==> (r matches Err(e)
            && e.reason == UserErrorReason::InvalidPassword),
        valid_sign_up_name(name@) && 6 <= encode_utf8(password@).len() <= usize::MAX ==> r is Ok,
{
    if name.is_empty() {
        return Err(UserError::new_common(CommonError::RequiredFieldMissing));
    }
    if !validate_name(name) {
        return Err(UserError::new_common(CommonError::InvalidStringFormat {
            expected: "^[a-zA-Z][a-zA-Z0-9_]{2,15}$".to_owned(),
        }));
    }
    if password.len() < 6 {
        return Err(UserError::new(UserErrorReason::InvalidPassword));
    }
    Ok(())
}

/// Accepts a password for further processing: anything shorter than six
/// bytes is rejected with the domain's invalid-password reason.
pub fn parse(password: String) -> (r: Result<String, UserError>)
    ensures
        6 <= encode_utf8(password@).len() <= usize::MAX ==> r == Ok::<String, UserError>(password),
        encode_utf8(password@).len() < 6 ==> (r matches Err(e) && e.reason
            == UserErrorReason::InvalidPassword && e.common_reason
            == CommonErrorReason::Unspecified && e.message is None && e.common_error is None
            && e.metadata is None),
{
    if password.as_str().len() < 6 {
        return Err(UserError::new(UserErrorReason::InvalidPassword));
    }
    Ok(password)
}

/// Writes a password back out unchanged.
pub fn write(password: String) -> (r: String)
    ensures
        r == password,
{
    password
}

} // verus!
