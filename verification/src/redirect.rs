//! How a request asks for redirects to be followed.

use vstd::prelude::*;

verus! {

/// What a client does with a response that redirects it.
#[derive(Debug, Clone, Copy, PartialEq, Eq, Structural, Hash)]
pub enum RedirectPolicy {
    /// The response is handed back as it is.
    NoFollow,
    /// Up to so many redirects are followed.
    FollowLimit(u32),
    /// Every redirect is followed.
    FollowAll,
}

impl Default for RedirectPolicy {
    fn default() -> (policy: Self)
        ensures
            policy == RedirectPolicy::NoFollow,
    {
        RedirectPolicy::NoFollow
    }
}

/// Whether redirects are followed.
pub struct FollowRedirects(pub bool);

/// The policy of a request that follows all redirects or none.
pub open spec fn policy_of(follow_redirects: bool) -> RedirectPolicy {
    if follow_redirects {
        RedirectPolicy::FollowAll
    } else {
        RedirectPolicy::NoFollow
    }
}

/// Whoever wants no redirects to be followed gets none, and whoever wants them
/// gets all.
pub proof fn policy_does_what_is_wanted(follow_redirects: bool)
    ensures
        follow_redirects ==> policy_of(follow_redirects) is FollowAll,
        !follow_redirects ==> policy_of(follow_redirects) is NoFollow,
{
}

} // verus!
