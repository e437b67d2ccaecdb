//! The sign-up command's data and its admission decision.
//!
//! The surrounding service looks the user up, hashes the password, and
//! stores the record; the decision of whether a sign-up may proceed is
//! taken here, over plain values.

use vstd::prelude::*;
use vstd::utf8::encode_utf8;
use crate::common::CommonError;
use crate::error::{common_reason_of, UserError};
use crate::reason::{CommonErrorReason, UserErrorReason};

verus! {

/// What a sign-up brings in.
#[derive(Debug)]
pub struct SignUpCommandInput<'a> {
    pub name: &'a str,
    pub password: &'a str,
}

/// What a completed sign-up hands back: the new user's identifier.
#[derive(Debug)]
pub struct SignUpCommandOutput {
    pub user_id: u128,
}

/// Decides whether a sign-up may proceed. A name already taken wins over
/// any password problem; a password shorter than six bytes is rejected
/// with the domain's invalid-password reason; everything else is admitted.
pub fn validate_sign_up(user_exists: bool, password: &str) -> (r: Result<(), UserError>)
    ensures
        user_exists ==> (r matches Err(e) && e.common_reason == common_reason_of(
            CommonError::AlreadyExists,
        ) && e.common_error == Some(CommonError::AlreadyExists) && e.reason
            == UserErrorReason::Unspecified),
        !user_exists && encode_utf8(password@).len() < 6 ==> (r matches Err(e) && e.reason
            == UserErrorReason::InvalidPassword && e.common_reason
            == CommonErrorReason::Unspecified),
        !user_exists && 6 <= encode_utf8(password@).len() <= usize::MAX ==> r is Ok,
{
    if user_exists {
        return Err(UserError::new_common(CommonError::AlreadyExists));
    }
    if password.len() < 6 {
        return Err(UserError::new(UserErrorReason::InvalidPassword));
    }
    Ok(())
}

} // verus!
