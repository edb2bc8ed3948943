//! The social platforms bots run on, and what the external platform
//! collaborator reports about an access token.
//!
//! Talking to a platform is I/O and happens outside this library; the
//! handlers here receive the collaborator's verdict as a value and decide
//! from it.

use vstd::prelude::*;

verus! {

/// The fixed set of supported social platforms.
#[derive(Clone, Copy, Debug, PartialEq, Eq, Structural, Hash)]
pub enum SocialPlatform {
    Vk,
    Instagram,
    Telegram,
    Youtube,
}

/// Profile data a platform reports for a verified access token.
#[derive(Debug)]
pub struct SocialProfile {
    pub username: Vec<u8>,
}

/// What the platform collaborator answered when a token was presented.
#[derive(Debug)]
pub enum TokenVerdict {
    /// The platform accepted the token and returned profile data.
    Accepted(SocialProfile),
    /// The platform answered, and rejected the token.
    Rejected,
    /// The platform could not be reached or failed to answer.
    Unreachable,
}

} // verus!
