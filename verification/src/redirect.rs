//! How far a chain of upstream redirects is followed.

use vstd::prelude::*;

verus! {

/// The number of redirects that are followed on behalf of one request.
pub const MAX_REDIRECTS: usize = 2;

/// Whether the redirect that answers the `requested`-th request of a chain
/// is followed. The first request of a chain is the one to the target
/// itself, so `requested` is at least one when a redirect arrives.
pub open spec fn follows(requested: nat) -> bool {
    requested <= MAX_REDIRECTS
}

/// Decides on a redirect, given how many requests of the chain were already
/// made. A redirect that is not followed ends the exchange as a failure.
pub fn follow_redirect(requested: usize) -> (follow: bool)
    ensures
        follow == follows(requested as nat),
{
    requested <= MAX_REDIRECTS
}

/// Every redirect of a chain of `length` redirects is followed.
pub open spec fn chain_followed(length: nat) -> bool {
    forall|requested: nat| 1 <= requested <= length ==> follows(requested)
}

/// A chain of redirects is followed to its end if and only if it is at most
/// two redirects long. A longer one ends at its third redirect, which is
/// refused.
pub proof fn lemma_chain_limit(length: nat)
    ensures
        chain_followed(length) <==> length <= MAX_REDIRECTS,
        length > MAX_REDIRECTS ==> follows(1) && follows(2) && !follows(3),
{
    if length > MAX_REDIRECTS {
        assert(!follows(3));
    }
}

} // verus!
