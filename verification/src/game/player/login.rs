//! Login approval in the event-based interface: approvals and kicks are events.

use vstd::prelude::*;
pub use crate::game::login::{AutoApproveLoginsPlugin, DuplicateStrategy};
use crate::game::login::{
    ProfilePeer, other_with_same_uuid, others_with_same_uuid, find_others_with_same_uuid,
    has_other_with_same_uuid,
};

verus! {

/// What is done about a login request.
pub enum LoginDecision {
    /// The login is approved, and these older connections are kicked as duplicate
    /// logins.
    Approve { kick: Vec<u64> },
    /// The requester is kicked because its name is taken.
    RejectRequester,
}

/// Decides a login request from connection `peer` for UUID `uuid`. Allowing duplicates
/// approves every login. Kicking the old approves the login and kicks every other
/// connection that holds a profile with the same UUID. Rejecting the new kicks the
/// requester where another connection holds a profile with the same UUID, and approves
/// the login otherwise.
pub fn decide_login(strategy: DuplicateStrategy, peer: u64, uuid: u128, peers: &Vec<ProfilePeer>) -> (r: LoginDecision)
    ensures
        match strategy {
            DuplicateStrategy::Allow => r matches LoginDecision::Approve { kick } && kick@ == Seq::<u64>::empty(),
            DuplicateStrategy::KickOld => r matches LoginDecision::Approve { kick } && kick@
                == others_with_same_uuid(peers@, peer, uuid),
            DuplicateStrategy::RejectNew => if other_with_same_uuid(peers@, peer, uuid) {
                r is RejectRequester
            } else {
                r matches LoginDecision::Approve { kick } && kick@ == Seq::<u64>::empty()
            },
        },
{
    match strategy {
        DuplicateStrategy::Allow => LoginDecision::Approve { kick: Vec::new() },
        DuplicateStrategy::KickOld => LoginDecision::Approve { kick: find_others_with_same_uuid(peers, peer, uuid) },
        DuplicateStrategy::RejectNew => if has_other_with_same_uuid(peers, peer, uuid) {
            LoginDecision::RejectRequester
        } else {
            LoginDecision::Approve { kick: Vec::new() }
        },
    }
}

} // verus!
