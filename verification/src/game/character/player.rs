//! Players: their markers and settings, and when a change of one is sent to them.

use vstd::prelude::*;

verus! {

/// A marker for player-type characters.
pub struct PlayerCharacter;

/// A marker for players who have finished logging in and are told of changes.
pub struct ReadyPlayerCharacter;

/// The brand a client declared (vanilla, fabric, forge, ...).
pub struct ClientBrand {
    pub brand: String,
}

/// Whether a player logs in with hardcore hearts.
pub struct IsHardcore;

/// Whether a player respawns at once on death, without the respawn screen.
pub struct NoRespawnScreen;

/// Whether a player's debug screen is reduced.
pub struct ReducedDebugInfo;

/// A player's view distance, in chunks; never zero.
pub struct ViewDist(u8);

impl ViewDist {
    #[verifier::type_invariant]
    spec fn positive(self) -> bool {
        self.0 > 0
    }

    /// The distance.
    pub closed spec fn chunks(self) -> u8 {
        self.0
    }

    /// The distance as a `u8`.
    pub fn as_u8(&self) -> (r: u8)
        ensures
            r == self.chunks(),
            r > 0,
    {
        proof {
            use_type_invariant(self);
        }
        self.0
    }
}

impl Default for ViewDist {
    /// Eight chunks.
    fn default() -> (r: Self)
        ensures
            r.chunks() == 8,
    {
        ViewDist(8)
    }
}

/// Records the current state of a flag against the one last sent, and says whether to
/// send it: when it changed and the player is ready.
pub fn flag_changed(current: bool, last_sent: &mut bool, is_ready: bool) -> (send: bool)
    ensures
        *final(last_sent) == current,
        send == (current != *old(last_sent) && is_ready),
{
    if current != *last_sent {
        *last_sent = current;
        is_ready
    } else {
        false
    }
}

/// What a player is told when its respawn screen setting changes: whether to show the
/// respawn screen, which it does unless it respawns at once.
pub fn respawn_screen_update(has_no_respawn_screen: bool, last_sent: &mut bool, is_ready: bool) -> (r: Option<bool>)
    ensures
        *final(last_sent) == has_no_respawn_screen,
        r == (if has_no_respawn_screen != *old(last_sent) && is_ready {
            Option::Some(!has_no_respawn_screen)
        } else {
            Option::None
        }),
{
    if flag_changed(has_no_respawn_screen, last_sent, is_ready) {
        Some(!has_no_respawn_screen)
    } else {
        None
    }
}

/// The character status that turns the reduced debug screen on or off.
#[derive(Clone, Copy, PartialEq, Eq, Structural, Debug)]
pub enum DebugInfoStatus {
    EnableReducedDebugInfo,
    DisableReducedDebugInfo,
}

/// What a player is told when its reduced debug screen setting changes.
pub fn reduced_debug_info_update(reduced: bool, last_sent: &mut bool, is_ready: bool) -> (r: Option<DebugInfoStatus>)
    ensures
        *final(last_sent) == reduced,
        r == (if reduced != *old(last_sent) && is_ready {
            Option::Some(
                if reduced {
                    DebugInfoStatus::EnableReducedDebugInfo
                } else {
                    DebugInfoStatus::DisableReducedDebugInfo
                },
            )
        } else {
            Option::None
        }),
{
    if flag_changed(reduced, last_sent, is_ready) {
        if reduced {
            Some(DebugInfoStatus::EnableReducedDebugInfo)
        } else {
            Some(DebugInfoStatus::DisableReducedDebugInfo)
        }
    } else {
        None
    }
}

/// A player's operator permission level, from none to all.
#[derive(Clone, Copy, PartialEq, Eq, Structural, Debug)]
pub enum OperatorLevel {
    All,
    Moderator,
    Gamemaster,
    Admin,
    Owner,
}

impl Default for OperatorLevel {
    /// No operator permissions.
    fn default() -> (r: Self)
        ensures
            r == OperatorLevel::All,
    {
        OperatorLevel::All
    }
}

/// The number of an operator level, from 0 for no permissions to 4.
pub open spec fn operator_level_number(l: OperatorLevel) -> u8 {
    match l {
        OperatorLevel::All => 0,
        OperatorLevel::Moderator => 1,
        OperatorLevel::Gamemaster => 2,
        OperatorLevel::Admin => 3,
        OperatorLevel::Owner => 4,
    }
}

/// What a player is told when its operator level changes: the number of the new level.
/// A player without a level counts as having the default one.
pub fn operator_level_update(level: Option<OperatorLevel>, last_sent: &mut OperatorLevel, is_ready: bool) -> (r: Option<u8>)
    ensures
        ({
            let now = match level {
                Option::Some(l) => l,
                Option::None => OperatorLevel::All,
            };
            &&& *final(last_sent) == now
            &&& r == if now != *old(last_sent) && is_ready {
                Option::Some(operator_level_number(now))
            } else {
                Option::None
            }
        }),
{
    let now = match level {
        Some(l) => l,
        None => OperatorLevel::default(),
    };
    if now != *last_sent {
        *last_sent = now;
        if is_ready {
            let n: u8 = match now {
                OperatorLevel::All => 0,
                OperatorLevel::Moderator => 1,
                OperatorLevel::Gamemaster => 2,
                OperatorLevel::Admin => 3,
                OperatorLevel::Owner => 4,
            };
            Some(n)
        } else {
            None
        }
    } else {
        None
    }
}


/// Operator levels are numbered in their order from 0 to 4: none 0, moderator 1, game
/// master 2, admin 3, owner 4; a higher level never has a lower number.
pub proof fn lemma_operator_level_numbers(a: OperatorLevel, b: OperatorLevel)
    ensures
        operator_level_number(OperatorLevel::All) == 0,
        operator_level_number(OperatorLevel::Moderator) == 1,
        operator_level_number(OperatorLevel::Gamemaster) == 2,
        operator_level_number(OperatorLevel::Admin) == 3,
        operator_level_number(OperatorLevel::Owner) == 4,
        operator_level_number(a) == operator_level_number(b) ==> a == b,
{
}

} // verus!
