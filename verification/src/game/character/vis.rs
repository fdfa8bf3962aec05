//! Which players a character is shown to, and which characters each player sees under
//! which identifier.

use vstd::prelude::*;
use std::collections::{HashMap, HashSet};
use crate::data::character::CharacterId;
use crate::game::character::player::ViewDist;
use vstd::std_specs::iter::IteratorSpec;

verus! {

broadcast use vstd::std_specs::hash::group_hash_axioms;

/// The players (by entity) a character is to be visible to when in range, and the
/// players whose visibility changed since the last update.
pub struct CharacterVisibility {
    should_be_visible_to: HashSet<u64>,
    modified_visibilities: HashSet<u64>,
}

impl CharacterVisibility {
    /// The players the character is to be visible to.
    pub closed spec fn visible(&self) -> Set<u64> {
        self.should_be_visible_to@
    }

    /// The players whose visibility changed since the last update.
    pub closed spec fn modified(&self) -> Set<u64> {
        self.modified_visibilities@
    }

    /// Visible to nobody, with nothing changed.
    pub fn new() -> (r: Self)
        ensures
            r.visible() == Set::<u64>::empty(),
            r.modified() == Set::<u64>::empty(),
    {
        CharacterVisibility { should_be_visible_to: HashSet::new(), modified_visibilities: HashSet::new() }
    }

    /// Shows the character to a player when in range. The player counts as changed
    /// only where it could not see the character before.
    pub fn show_to(&mut self, player: u64)
        ensures
            final(self).visible() == old(self).visible().insert(player),
            final(self).modified() == if old(self).visible().contains(player) {
                old(self).modified()
            } else {
                old(self).modified().insert(player)
            },
    {
        if self.should_be_visible_to.insert(player) {
            self.modified_visibilities.insert(player);
        }
    }

    /// Hides the character from a player. The player counts as changed only where it
    /// could see the character before.
    pub fn hide_from(&mut self, player: u64)
        ensures
            final(self).visible() == old(self).visible().remove(player),
            final(self).modified() == if old(self).visible().contains(player) {
                old(self).modified().insert(player)
            } else {
                old(self).modified()
            },
    {
        if self.should_be_visible_to.remove(&player) {
            self.modified_visibilities.insert(player);
        }
    }

    /// Hides the character from every player; each of them counts as changed.
    pub fn hide_from_all(&mut self)
        ensures
            final(self).visible() == Set::<u64>::empty(),
            final(self).modified() == old(self).modified().union(old(self).visible()),
    {
        let mut shown: HashSet<u64> = HashSet::new();
        core::mem::swap(&mut shown, &mut self.should_be_visible_to);
        let ghost before = self.modified_visibilities@;
        let ghost mut seen: Seq<u64> = Seq::empty();
        for p in it: shown.iter()
            invariant
                self.should_be_visible_to@ == Set::<u64>::empty(),
                it.seq().unref().to_set() == shown@,
                seen == it.seq().unref().take(it.index() as int),
                it.index() == it.seq().len() ==> seen.to_set() == shown@,
                forall|x: u64| #[trigger] self.modified_visibilities@.contains(x) <==> (
                    before.contains(x) || seen.contains(x)),
        {
            self.modified_visibilities.insert(*p);
            proof {
                let ghost s = it.seq().unref();
                assert(s[it.index() as int] == *p);
                assert(seen.push(*p) =~= s.take(it.index() + 1));
                if it.index() + 1 == s.len() {
                    assert(s.take(it.index() + 1) =~= s);
                }
                let ghost old_seen = seen;
                seen = seen.push(*p);
                assert forall|x: u64| #[trigger] self.modified_visibilities@.contains(x) <==> (
                    before.contains(x) || seen.contains(x)) by {
                    if seen.contains(x) && x != *p {
                        let j = choose|j: int| 0 <= j < seen.len() && seen[j] == x;
                        assert(old_seen[j] == x);
                    }
                    if x == *p {
                        assert(seen[seen.len() - 1] == x);
                    }
                    if old_seen.contains(x) {
                        let j = choose|j: int| 0 <= j < old_seen.len() && old_seen[j] == x;
                        assert(seen[j] == x);
                    }
                }
            }
        }
        proof {
            assert forall|x: u64| #[trigger] self.modified_visibilities@.contains(x) <==> before.union(
                shown@,
            ).contains(x) by {
                if shown@.contains(x) {
                    assert(seen.to_set().contains(x));
                }
                if seen.contains(x) {
                    assert(seen.to_set().contains(x));
                }
            }
            assert(self.modified_visibilities@ =~= before.union(shown@));
        }
    }

    /// The players whose visibility changed since the last update, each once, in no
    /// particular order; afterwards none counts as changed.
    pub fn take_modified(&mut self) -> (r: Vec<u64>)
        ensures
            r@.to_set() == old(self).modified(),
            r@.no_duplicates(),
            final(self).modified() == Set::<u64>::empty(),
            final(self).visible() == old(self).visible(),
    {
        let mut out: Vec<u64> = Vec::new();
        for p in it: self.modified_visibilities.iter()
            invariant
                it.seq().unref().to_set() == self.modified_visibilities@,
                it.seq().no_duplicates(),
                out@ == it.seq().unref().take(it.index() as int),
                out@.no_duplicates(),
                it.index() == it.seq().len() ==> out@.to_set() == self.modified_visibilities@,
        {
            proof {
                assert(it.seq().unref()[it.index() as int] == *p);
                assert(out@.push(*p) =~= it.seq().unref().take(it.index() + 1));
                assert forall|a: int, b: int| 0 <= a < b <= it.index() implies out@.push(*p)[a]
                    != out@.push(*p)[b] by {
                    assert(it.seq()[a] != it.seq()[b]);
                }
                assert(it.index() + 1 == it.seq().len() ==> it.seq().unref().take(it.index() + 1)
                    =~= it.seq().unref());
            }
            out.push(*p);
        }
        self.modified_visibilities.clear();
        out
    }

    /// Whether the character is to be visible to a player when in range.
    pub fn should_be_visible_to(&self, player: u64) -> (r: bool)
        ensures
            r == self.visible().contains(player),
    {
        self.should_be_visible_to.contains(&player)
    }
}

/// The characters one player currently sees, each under the identifier the player
/// knows it by. Identifiers are handed out from a counter; those of characters that
/// went out of sight are reused first.
pub struct VisibleCharacters {
    this_entity: u64,
    visible_character_ids: HashMap<u64, CharacterId>,
    next_character_id: u32,
    reusable_character_ids: HashSet<u32>,
}

impl VisibleCharacters {
    /// The player's own entity.
    pub closed spec fn owner(&self) -> u64 {
        self.this_entity
    }

    /// The characters seen, by entity, with their identifiers.
    pub closed spec fn ids(&self) -> Map<u64, CharacterId> {
        self.visible_character_ids@
    }

    /// The next identifier the counter hands out.
    pub closed spec fn next_id(&self) -> u32 {
        self.next_character_id
    }

    /// The identifiers free to be handed out again.
    pub closed spec fn reusable(&self) -> Set<u32> {
        self.reusable_character_ids@
    }

    #[verifier::type_invariant]
    spec fn inv(self) -> bool {
        self.wf()
    }

    /// Every identifier in use came from the counter and is not free; every free one came
    /// from the counter; no two characters share an identifier.
    pub open spec fn wf(&self) -> bool {
        &&& forall|e: u64| #[trigger] self.ids().contains_key(e) ==> self.ids()[e].0 < self.next_id()
            && !self.reusable().contains(self.ids()[e].0)
        &&& forall|r: u32| #[trigger] self.reusable().contains(r) ==> r < self.next_id()
        &&& forall|e1: u64, e2: u64|
            #![trigger self.ids()[e1], self.ids()[e2]]
            self.ids().contains_key(e1) && self.ids().contains_key(e2) && e1 != e2 ==> self.ids()[e1]
                != self.ids()[e2]
        &&& self.reusable().finite()
    }

    /// A player who sees nothing yet.
    pub fn new(this_entity: u64) -> (r: Self)
        ensures
            r.wf(),
            r.owner() == this_entity,
            r.ids() == Map::<u64, CharacterId>::empty(),
            r.next_id() == 0,
            r.reusable() == Set::<u32>::empty(),
    {
        VisibleCharacters {
            this_entity,
            visible_character_ids: HashMap::new(),
            next_character_id: 0,
            reusable_character_ids: HashSet::new(),
        }
    }

    /// The identifier of a character, where the player sees it.
    pub fn get(&self, entity: u64) -> (r: Option<CharacterId>)
        ensures
            r == (if self.ids().contains_key(entity) {
                Option::Some(self.ids()[entity])
            } else {
                Option::None
            }),
    {
        match self.visible_character_ids.get(&entity) {
            Some(c) => Some(*c),
            None => None,
        }
    }

    /// Whether `try_insert` can run for `entity`: the character is seen already, an
    /// identifier is free, or the counter has not reached its end.
    pub fn can_assign(&self, entity: u64) -> (r: bool)
        ensures
            r == (self.ids().contains_key(entity) || !(self.reusable() == Set::<u32>::empty())
                || self.next_id() < u32::MAX),
    {
        if self.visible_character_ids.contains_key(&entity) || self.next_character_id < u32::MAX {
            return true;
        }
        let free = self.pick_reusable();
        free.is_some()
    }

    /// Picks a free identifier, where there is one.
    fn pick_reusable(&self) -> (r: Option<u32>)
        ensures
            match r {
                Option::Some(id) => self.reusable().contains(id),
                Option::None => self.reusable() == Set::<u32>::empty(),
            },
    {
        let mut chosen: Option<u32> = None;
        for id in it: self.reusable_character_ids.iter()
            invariant
                it.seq().unref().to_set() == self.reusable_character_ids@,
                chosen matches Option::Some(x) ==> self.reusable_character_ids@.contains(x),
                it.index() > 0 ==> chosen is Some,
                it.index() == it.seq().len() && chosen is None ==> self.reusable_character_ids@
                    == Set::<u32>::empty(),
        {
            proof {
                assert(it.seq().unref()[it.index() as int] == *id);
                assert(it.seq().unref().to_set().contains(*id));
            }
            return Some(*id);
        }
        chosen
    }

    /// Gives a character that the player does not see yet an identifier, and returns
    /// it: a free one where there is one, else the next from the counter. A character
    /// already seen gets nothing.
    pub fn try_insert(&mut self, entity: u64) -> (r: Option<CharacterId>)
        requires
            old(self).ids().contains_key(entity) || !(old(self).reusable() == Set::<u32>::empty())
                || old(self).next_id() < u32::MAX,
        ensures
            old(self).wf(),
            final(self).wf(),
            final(self).owner() == old(self).owner(),
            old(self).ids().contains_key(entity) ==> r is None && final(self).ids() == old(self).ids()
                && final(self).reusable() == old(self).reusable() && final(self).next_id() == old(
                self,
            ).next_id(),
            !old(self).ids().contains_key(entity) ==> (r matches Option::Some(c) && final(self).ids()
                == old(self).ids().insert(entity, c) && if old(self).reusable() == Set::<u32>::empty() {
                &&& c.0 == old(self).next_id()
                &&& final(self).next_id() == old(self).next_id() + 1
                &&& final(self).reusable() == old(self).reusable()
            } else {
                &&& old(self).reusable().contains(c.0)
                &&& final(self).next_id() == old(self).next_id()
                &&& final(self).reusable() == old(self).reusable().remove(c.0)
            }),
    {
        proof {
            use_type_invariant(&*self);
        }
        if self.visible_character_ids.contains_key(&entity) {
            return None;
        }
        let chid = match self.pick_reusable() {
            Some(id) => {
                let mut free: HashSet<u32> = HashSet::new();
                core::mem::swap(&mut free, &mut self.reusable_character_ids);
                free.remove(&id);
                self.reusable_character_ids = free;
                CharacterId(id)
            },
            None => {
                let id = self.next_character_id;
                self.next_character_id = id + 1;
                CharacterId(id)
            },
        };
        let mut ids: HashMap<u64, CharacterId> = HashMap::new();
        core::mem::swap(&mut ids, &mut self.visible_character_ids);
        ids.insert(entity, chid);
        self.visible_character_ids = ids;
        proof {
            use_type_invariant(&*self);
        }
        Some(chid)
    }

    /// Forgets a character the player no longer sees, freeing its identifier, and
    /// returns the identifier it had.
    pub fn remove(&mut self, entity: u64) -> (r: Option<CharacterId>)
        ensures
            old(self).wf(),
            final(self).wf(),
            final(self).owner() == old(self).owner(),
            final(self).next_id() == old(self).next_id(),
            final(self).ids() == old(self).ids().remove(entity),
            old(self).ids().contains_key(entity) ==> r == Option::Some(old(self).ids()[entity])
                && final(self).reusable() == old(self).reusable().insert(old(self).ids()[entity].0),
            !old(self).ids().contains_key(entity) ==> r is None && final(self).reusable() == old(
                self,
            ).reusable(),
    {
        proof {
            use_type_invariant(&*self);
        }
        let ghost before = *self;
        let mut ids: HashMap<u64, CharacterId> = HashMap::new();
        core::mem::swap(&mut ids, &mut self.visible_character_ids);
        let removed = ids.remove(&entity);
        proof {
            assert(ids@ == before.ids().remove(entity));
            assert forall|e: u64| #[trigger] ids@.contains_key(e) implies ids@[e].0 < self.next_id()
                && !self.reusable().contains(ids@[e].0) by {
                assert(before.ids().contains_key(e));
            }
            assert forall|e1: u64, e2: u64|
                #![trigger ids@[e1], ids@[e2]]
                ids@.contains_key(e1) && ids@.contains_key(e2) && e1 != e2 implies ids@[e1] != ids@[e2] by {
                assert(before.ids()[e1] != before.ids()[e2]);
            }
        }
        self.visible_character_ids = ids;
        match removed {
            Some(chid) => {
                let mut free: HashSet<u32> = HashSet::new();
                proof {
                    assert forall|e: u64| #[trigger] self.ids().contains_key(e) implies self.ids()[e].0
                        < self.next_id() by {
                        assert(before.ids().contains_key(e));
                    }
                }
                core::mem::swap(&mut free, &mut self.reusable_character_ids);
                free.insert(chid.0);
                self.reusable_character_ids = free;
                proof {
                    assert(before.ids().contains_key(entity));
                    assert(chid == before.ids()[entity]);
                    assert(self.ids() == before.ids().remove(entity));
                    assert(self.reusable() == before.reusable().insert(chid.0));
                    assert forall|r: u32| #[trigger] self.reusable().contains(r) implies r < self.next_id() by {
                        if r != chid.0 {
                            assert(before.reusable().contains(r));
                        }
                    }
                    assert forall|e: u64| #[trigger] self.ids().contains_key(e) implies self.ids()[e].0
                        < self.next_id() && !self.reusable().contains(self.ids()[e].0) by {
                        assert(before.ids().contains_key(e) && e != entity);
                        assert(before.ids()[e] != before.ids()[entity]);
                    }
                }
                Some(chid)
            },
            None => {
                proof {
                    assert(self.ids() =~= before.ids());
                }
                None
            },
        }
    }
}

/// A character handed an identifier is known by no other character the player sees,
/// and the identifier is no longer free.
pub proof fn lemma_inserted_id_unique(before: VisibleCharacters, after: VisibleCharacters, entity: u64, c: CharacterId)
    requires
        after.wf(),
        after.ids() == before.ids().insert(entity, c),
    ensures
        forall|e: u64| #[trigger] before.ids().contains_key(e) && e != entity ==> before.ids()[e] != c,
        !after.reusable().contains(c.0),
{
    assert forall|e: u64| #[trigger] before.ids().contains_key(e) && e != entity implies before.ids()[e] != c by {
        assert(after.ids().contains_key(e) && after.ids().contains_key(entity));
        assert(after.ids()[e] == before.ids()[e]);
        assert(after.ids()[entity] == c);
    }
    assert(after.ids().contains_key(entity));
}

/// What a player is to be told about one character after a visibility change.
#[derive(Clone, Copy, PartialEq, Eq, Structural, Debug)]
pub enum VisibilityChange {
    /// The character is added, under this identifier.
    Added(CharacterId),
    /// The character, known by this identifier, is removed.
    Removed(CharacterId),
    /// Nothing to tell.
    Unchanged,
}

/// Whether a character `chunk_dist` chunks away is in a player's view.
pub open spec fn in_view(chunk_dist: u32, view: ViewDist) -> bool {
    chunk_dist < view.chunks() as u32
}

/// Brings what a player sees of one character in line with whether it should see it:
/// a character it should see and that is in view is added where it is not seen yet;
/// any other is removed where it is seen.
pub fn update_visibility(
    seen: &mut VisibleCharacters,
    character: u64,
    should_see: bool,
    chunk_dist: u32,
    view: &ViewDist,
) -> (r: VisibilityChange)
    requires
        should_see && in_view(chunk_dist, *view) ==> (old(seen).ids().contains_key(character)
            || !(old(seen).reusable() == Set::<u32>::empty()) || old(seen).next_id() < u32::MAX),
    ensures
        final(seen).wf(),
        final(seen).owner() == old(seen).owner(),
        if should_see && in_view(chunk_dist, *view) {
            &&& final(seen).ids().contains_key(character)
            &&& if old(seen).ids().contains_key(character) {
                &&& r == VisibilityChange::Unchanged
                &&& final(seen).ids() == old(seen).ids()
                &&& final(seen).reusable() == old(seen).reusable()
                &&& final(seen).next_id() == old(seen).next_id()
            } else {
                &&& r == VisibilityChange::Added(final(seen).ids()[character])
                &&& final(seen).ids() == old(seen).ids().insert(character, final(seen).ids()[character])
                &&& if old(seen).reusable() == Set::<u32>::empty() {
                    &&& final(seen).ids()[character].0 == old(seen).next_id()
                    &&& final(seen).next_id() == old(seen).next_id() + 1
                    &&& final(seen).reusable() == old(seen).reusable()
                } else {
                    &&& old(seen).reusable().contains(final(seen).ids()[character].0)
                    &&& final(seen).next_id() == old(seen).next_id()
                    &&& final(seen).reusable() == old(seen).reusable().remove(
                        final(seen).ids()[character].0,
                    )
                }
            }
        } else {
            &&& final(seen).ids() == old(seen).ids().remove(character)
            &&& final(seen).next_id() == old(seen).next_id()
            &&& if old(seen).ids().contains_key(character) {
                &&& r == VisibilityChange::Removed(old(seen).ids()[character])
                &&& final(seen).reusable() == old(seen).reusable().insert(old(seen).ids()[character].0)
            } else {
                &&& r == VisibilityChange::Unchanged
                &&& final(seen).reusable() == old(seen).reusable()
            }
        },
{
    let range = view.as_u8() as u32;
    if should_see && chunk_dist < range {
        match seen.try_insert(character) {
            Some(id) => VisibilityChange::Added(id),
            None => VisibilityChange::Unchanged,
        }
    } else {
        match seen.remove(character) {
            Some(id) => VisibilityChange::Removed(id),
            None => VisibilityChange::Unchanged,
        }
    }
}

/// The identifiers that forgetting the characters `removed`, in order, frees: each
/// character that is seen gives its identifier, once.
pub open spec fn forgotten_ids(ids: Map<u64, CharacterId>, removed: Seq<u64>) -> Seq<CharacterId>
    decreases removed.len(),
{
    if removed.len() == 0 {
        Seq::empty()
    } else {
        let before = forgotten_ids(ids, removed.drop_last());
        let left = ids.remove_keys(removed.drop_last().to_set());
        if left.contains_key(removed.last()) {
            before.push(left[removed.last()])
        } else {
            before
        }
    }
}

/// The numbers of the identifiers in `s`.
pub open spec fn id_numbers(s: Seq<CharacterId>) -> Set<u32> {
    Set::new(|x: u32| exists|j: int| 0 <= j < s.len() && s[j].0 == x)
}

/// Forgets characters that were removed from the world, and returns the identifiers
/// they had for this player, to be sent in one removal; those identifiers become free.
pub fn forget_characters(seen: &mut VisibleCharacters, removed: &Vec<u64>) -> (r: Vec<CharacterId>)
    ensures
        final(seen).wf(),
        final(seen).owner() == old(seen).owner(),
        final(seen).ids() == old(seen).ids().remove_keys(removed@.to_set()),
        r@ == forgotten_ids(old(seen).ids(), removed@),
        final(seen).reusable() == old(seen).reusable().union(id_numbers(r@)),
        final(seen).next_id() == old(seen).next_id(),
{
    proof {
        use_type_invariant(&*seen);
    }
    let ghost start = seen.ids();
    let mut out: Vec<CharacterId> = Vec::new();
    assert(seen.reusable().union(id_numbers(out@)) =~= seen.reusable());
    let n = removed.len();
    let mut i: usize = 0;
    while i < n
        invariant
            i <= n,
            n == removed@.len(),
            seen.wf(),
            seen.owner() == old(seen).owner(),
            start == old(seen).ids(),
            seen.ids() == start.remove_keys(removed@.take(i as int).to_set()),
            out@ == forgotten_ids(start, removed@.take(i as int)),
            seen.reusable() == old(seen).reusable().union(id_numbers(out@)),
            seen.next_id() == old(seen).next_id(),
        decreases n - i,
    {
        let e = removed[i];
        let ghost prefix = removed@.take(i as int);
        let ghost next = removed@.take(i + 1);
        assert(next.drop_last() =~= prefix);
        assert(next.last() == e);
        assert(next.to_set() =~= prefix.to_set().insert(e));
        let ghost before = out@;
        match seen.remove(e) {
            Some(id) => {
                out.push(id);
                assert(id_numbers(out@) =~= id_numbers(before).insert(id.0)) by {
                    assert forall|x: u32| id_numbers(before).insert(id.0).contains(x) implies id_numbers(
                        out@,
                    ).contains(x) by {
                        if x == id.0 {
                            assert(out@[before.len() as int].0 == x);
                        } else {
                            let j = choose|j: int| 0 <= j < before.len() && before[j].0 == x;
                            assert(out@[j].0 == x);
                        }
                    }
                    assert forall|x: u32| id_numbers(out@).contains(x) implies id_numbers(before).insert(
                        id.0,
                    ).contains(x) by {
                        let j = choose|j: int| 0 <= j < out@.len() && out@[j].0 == x;
                        if j < before.len() {
                            assert(before[j].0 == x);
                        }
                    }
                }
            },
            None => {},
        }
        assert(seen.ids() =~= start.remove_keys(next.to_set()));
        i += 1;
    }
    assert(removed@.take(n as int) =~= removed@);
    out
}

/// Showing a character to a player and then hiding it from that player (the states
/// before, between and after the two calls) leaves the player unable to see it, and
/// leaves the character visible to exactly the players it was visible to before, where
/// that player could not see it before.
pub proof fn lemma_show_then_hide(
    v0: CharacterVisibility,
    v1: CharacterVisibility,
    v2: CharacterVisibility,
    player: u64,
)
    requires
        v1.visible() == v0.visible().insert(player),
        v2.visible() == v1.visible().remove(player),
    ensures
        !v2.visible().contains(player),
        !v0.visible().contains(player) ==> v2.visible() == v0.visible(),
{
    if !v0.visible().contains(player) {
        assert(v2.visible() =~= v0.visible());
    }
}

/// Giving a character that a player does not see an identifier and then forgetting it
/// again (the states before, between and after the two calls) gives back the same
/// identifier and leaves the characters seen as they were.
pub proof fn lemma_insert_then_remove(
    s0: VisibleCharacters,
    s1: VisibleCharacters,
    s2: VisibleCharacters,
    entity: u64,
    c: CharacterId,
)
    requires
        !s0.ids().contains_key(entity),
        s1.ids() == s0.ids().insert(entity, c),
        s2.ids() == s1.ids().remove(entity),
    ensures
        s1.ids()[entity] == c,
        s2.ids() == s0.ids(),
{
    assert(s2.ids() =~= s0.ids());
}

} // verus!
