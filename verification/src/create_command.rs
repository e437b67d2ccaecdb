//! The post-creation command's data.
//!
//! The surrounding service authenticates the caller through the request
//! context, generates the identifier and timestamp, and stores the record;
//! the values themselves are plain.

use vstd::prelude::*;

verus! {

/// What a post creation brings in.
#[derive(Debug)]
pub struct CreatePostCommandInput<'a> {
    pub content: &'a str,
}

/// What a completed post creation hands back: the new post's identifier
/// and its creation time, as a plain tick count.
#[derive(Debug)]
pub struct CreatePostCommandOutput {
    pub post_id: u128,
    pub create_time: i64,
}

} // verus!
