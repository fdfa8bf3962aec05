//! Login approval: what to do when a player logs in while another connection holds a
//! profile.

use vstd::prelude::*;
use crate::data::text::{Text, ComponentModel, ContentModel, plain};

verus! {

/// The plugin that approves logins by itself, handling duplicates as configured.
pub struct AutoApproveLoginsPlugin {
    /// How to handle duplicate logins.
    pub duplicate_strategy: DuplicateStrategy,
}

impl Default for AutoApproveLoginsPlugin {
    fn default() -> (r: Self)
        ensures
            r.duplicate_strategy == DuplicateStrategy::KickOld,
    {
        AutoApproveLoginsPlugin { duplicate_strategy: DuplicateStrategy::KickOld }
    }
}

/// How to handle duplicate logins.
#[derive(Clone, Copy, PartialEq, Eq, Structural, Debug)]
pub enum DuplicateStrategy {
    /// Allow duplicate UUIDs.
    Allow,
    /// Kick the older connection.
    KickOld,
    /// Refuse the newer connection.
    RejectNew,
}

impl Default for DuplicateStrategy {
    fn default() -> (r: Self)
        ensures
            r == DuplicateStrategy::KickOld,
    {
        DuplicateStrategy::KickOld
    }
}

/// A connection that holds a profile: its entity and the profile's UUID.
#[derive(Clone, Copy, PartialEq, Eq, Structural, Debug)]
pub struct ProfilePeer {
    pub entity: u64,
    pub uuid: u128,
}

/// Whether another connection than `peer` holds a profile with UUID `uuid`.
pub open spec fn other_with_same_uuid(peers: Seq<ProfilePeer>, peer: u64, uuid: u128) -> bool {
    exists|i: int| 0 <= i < peers.len() && peers[i].entity != peer && peers[i].uuid == uuid
}

/// The reason given to an older connection kicked as a duplicate login.
pub open spec fn duplicate_login_model() -> Seq<ComponentModel> {
    seq![plain(ContentModel::Translate("multiplayer.disconnect.duplicate_login"@, Option::None, Seq::empty()))]
}

/// The reason given when a login is refused because the name is taken.
pub open spec fn name_taken_model() -> Seq<ComponentModel> {
    seq![plain(ContentModel::Translate("multiplayer.disconnect.name_taken"@, Option::None, Seq::empty()))]
}

pub fn duplicate_login_text() -> (t: Text)
    ensures
        t@ == duplicate_login_model(),
{
    Text::translate("multiplayer.disconnect.duplicate_login")
}

pub fn name_taken_text() -> (t: Text)
    ensures
        t@ == name_taken_model(),
{
    Text::translate("multiplayer.disconnect.name_taken")
}

/// Whether another connection than `peer` holds a profile with UUID `uuid`.
pub fn has_other_with_same_uuid(peers: &Vec<ProfilePeer>, peer: u64, uuid: u128) -> (r: bool)
    ensures
        r == other_with_same_uuid(peers@, peer, uuid),
{
    let n = peers.len();
    let mut i: usize = 0;
    while i < n
        invariant
            i <= n,
            n == peers@.len(),
            forall|j: int| 0 <= j < i ==> !(#[trigger] peers@[j].entity != peer && peers@[j].uuid == uuid),
        decreases n - i,
    {
        if peers[i].entity != peer && peers[i].uuid == uuid {
            return true;
        }
        i += 1;
    }
    false
}

/// The connections other than `peer` that hold a profile with UUID `uuid`, in order.
pub open spec fn others_with_same_uuid(peers: Seq<ProfilePeer>, peer: u64, uuid: u128) -> Seq<u64>
    decreases peers.len(),
{
    if peers.len() == 0 {
        Seq::empty()
    } else {
        let before = others_with_same_uuid(peers.drop_last(), peer, uuid);
        if peers.last().entity != peer && peers.last().uuid == uuid {
            before.push(peers.last().entity)
        } else {
            before
        }
    }
}

/// The connections other than `peer` that hold a profile with UUID `uuid`, in order.
pub fn find_others_with_same_uuid(peers: &Vec<ProfilePeer>, peer: u64, uuid: u128) -> (r: Vec<u64>)
    ensures
        r@ == others_with_same_uuid(peers@, peer, uuid),
{
    let mut out: Vec<u64> = Vec::new();
    let n = peers.len();
    let mut i: usize = 0;
    while i < n
        invariant
            i <= n,
            n == peers@.len(),
            out@ == others_with_same_uuid(peers@.take(i as int), peer, uuid),
        decreases n - i,
    {
        assert(peers@.take(i + 1).drop_last() =~= peers@.take(i as int));
        if peers[i].entity != peer && peers[i].uuid == uuid {
            out.push(peers[i].entity);
        }
        i += 1;
    }
    assert(peers@.take(n as int) =~= peers@);
    out
}

/// The answer to a login request: whether it is approved (or the reason it is refused),
/// and the older connections to kick with the duplicate-login reason.
pub struct LoginAnswer {
    pub response: Result<(), Text>,
    pub kick: Vec<u64>,
}

/// Answers a login request from connection `peer` for UUID `uuid`, given the connections
/// that hold profiles. Allowing duplicates approves every login. Kicking the old
/// approves the login and kicks every other connection that holds a profile with the
/// same UUID. Rejecting the new refuses the login with the name-taken reason wherever
/// another connection holds a profile with the same UUID, and approves it otherwise.
pub fn approve_login(strategy: DuplicateStrategy, peer: u64, uuid: u128, peers: &Vec<ProfilePeer>) -> (r: LoginAnswer)
    ensures
        match strategy {
            DuplicateStrategy::Allow => r.response is Ok && r.kick@ == Seq::<u64>::empty(),
            DuplicateStrategy::KickOld => r.response is Ok && r.kick@ == others_with_same_uuid(
                peers@,
                peer,
                uuid,
            ),
            DuplicateStrategy::RejectNew => r.kick@ == Seq::<u64>::empty() && if other_with_same_uuid(
                peers@,
                peer,
                uuid,
            ) {
                r.response matches Result::Err(t) && t@ == name_taken_model()
            } else {
                r.response is Ok
            },
        },
{
    match strategy {
        DuplicateStrategy::Allow => LoginAnswer { response: Ok(()), kick: Vec::new() },
        DuplicateStrategy::KickOld => LoginAnswer {
            response: Ok(()),
            kick: find_others_with_same_uuid(peers, peer, uuid),
        },
        DuplicateStrategy::RejectNew => {
            if has_other_with_same_uuid(peers, peer, uuid) {
                LoginAnswer { response: Err(name_taken_text()), kick: Vec::new() }
            } else {
                LoginAnswer { response: Ok(()), kick: Vec::new() }
            }
        },
    }
}

/// A connection kicked by the kick-old strategy holds a profile with the requester's
/// UUID, and is not the requester.
pub proof fn lemma_kicked_share_uuid(peers: Seq<ProfilePeer>, peer: u64, uuid: u128, k: int)
    requires
        0 <= k < others_with_same_uuid(peers, peer, uuid).len(),
    ensures
        others_with_same_uuid(peers, peer, uuid)[k] != peer,
        exists|i: int| 0 <= i < peers.len() && peers[i].entity == others_with_same_uuid(peers, peer, uuid)[k]
            && peers[i].uuid == uuid,
    decreases peers.len(),
{
    let before = others_with_same_uuid(peers.drop_last(), peer, uuid);
    if k < before.len() {
        lemma_kicked_share_uuid(peers.drop_last(), peer, uuid, k);
        let i = choose|i: int| 0 <= i < peers.drop_last().len() && peers.drop_last()[i].entity == before[k]
            && peers.drop_last()[i].uuid == uuid;
        assert(peers[i] == peers.drop_last()[i]);
    } else {
        assert(peers[peers.len() - 1] == peers.last());
    }
}

} // verus!
