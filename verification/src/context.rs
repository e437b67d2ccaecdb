//! The per-request caller context and its authentication decision.
//!
//! The transport hands the caller's identity over as a resource name of the
//! form `users/{user_id}`; the context keeps the parsed identity, if any,
//! as a plain value.

use vstd::prelude::*;
use vstd::string::StrSliceExecFns;
use crate::common::CommonError;
use crate::error::{common_reason_of, UserError};
use crate::reason::UserErrorReason;

verus! {

/// What is known about the caller of one request.
#[derive(Debug, Clone, Copy)]
pub struct Context {
    pub user_id: Option<u128>,
}

impl Context {
    /// Demands an authenticated caller: yields the caller's identity, or
    /// the unauthorized failure wrapped as a domain error.
    pub fn authenticate(&self) -> (r: Result<u128, UserError>)
        ensures
            match self.user_id {
                Option::Some(id) => r == Ok::<u128, UserError>(id),
                Option::None => r matches Err(e) && e.common_reason == common_reason_of(
                    CommonError::Unauthorized,
                ) && e.common_error == Some(CommonError::Unauthorized) && e.reason
                    == UserErrorReason::Unspecified,
            },
    {
        match self.user_id {
            Option::Some(id) => Ok(id),
            Option::None => Err(UserError::new_common(CommonError::Unauthorized)),
        }
    }
}

/// Splits a caller resource name: accepts exactly a `users/` prefix
/// followed by a non-empty identifier, and yields that identifier.
pub fn parse_user_resource_name<'a>(name: &'a str) -> (r: Option<&'a str>)
    ensures
        match r {
            Option::Some(id) => name@.len() > 6 && name@.take(6) == "users/"@ && id@ == name@.skip(
                6,
            ),
            Option::None => !(name@.len() > 6 && name@.take(6) == "users/"@),
        },
{
    let n = name.unicode_len();
    if n <= 6 {
        return Option::None;
    }
    let prefix = name.substring_char(0, 6);
    if prefix.to_owned() == "users/".to_owned() {
        let id = name.substring_char(6, n);
        proof {
            assert(name@.subrange(0, 6) =~= name@.take(6));
            assert(name@.subrange(6, name@.len() as int) =~= name@.skip(6));
        }
        Option::Some(id)
    } else {
        proof {
            assert(name@.subrange(0, 6) =~= name@.take(6));
        }
        Option::None
    }
}

} // verus!
