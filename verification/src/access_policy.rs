//! Visibility policy of an uploaded image.

use vstd::prelude::*;

verus! {

/// Visibility of an uploaded image.
///
/// `Anyone` makes the image visible to anyone holding the link (the
/// server-side default), `OnlyMe` restricts it to the uploader.
#[derive(Clone, Copy, Debug, PartialEq, Eq, Structural)]
pub enum AccessPolicy {
    /// The image is visible to anyone with the link.
    Anyone,
    /// The image is visible only to the uploader.
    OnlyMe,
}

/// The wire text of an access policy.
pub open spec fn policy_text(p: AccessPolicy) -> Seq<char> {
    match p {
        AccessPolicy::Anyone => "anyone"@,
        AccessPolicy::OnlyMe => "only_me"@,
    }
}

impl AccessPolicy {
    /// The text under which the policy is sent to the service.
    pub fn as_str(&self) -> (r: &'static str)
        ensures
            r@ == policy_text(*self),
    {
        match self {
            AccessPolicy::Anyone => "anyone",
            AccessPolicy::OnlyMe => "only_me",
        }
    }
}

} // verus!
