//! Carried items, their effects on combat statistics, and the armory that
//! cycles through carried weapons.

use vstd::prelude::*;

use crate::num::VALUE_CAP;
use crate::profile::TUNABLE_CAP;
use crate::stats::PlayerStats;

verus! {

/// Consumable items a combatant can carry.
#[derive(Clone, Copy, PartialEq, Eq, Structural, Debug)]
pub enum Items {
    /// Raises the health ceiling while carried.
    HealthApple,
    /// Slows bullets at spawn and accelerates them in flight.
    Mercury,
}

/// Number of occurrences of `it` in `s`.
pub open spec fn count_items(s: Seq<Items>, it: Items) -> int
    decreases s.len(),
{
    if s.len() == 0 {
        0
    } else {
        count_items(s.drop_last(), it) + if s.last() == it {
            1int
        } else {
            0int
        }
    }
}

/// The count of an item never exceeds the length of the sequence.
pub proof fn lemma_count_items_le_len(s: Seq<Items>, it: Items)
    ensures
        0 <= count_items(s, it) <= s.len(),
    decreases s.len(),
{
    if s.len() > 0 {
        lemma_count_items_le_len(s.drop_last(), it);
    }
}

/// Largest number of items one combatant can carry.
pub const INVENTORY_CAP: usize = 1_000;

/// The items currently carried by one combatant.
#[derive(Clone, PartialEq, Eq, Debug)]
pub struct Inventory {
    /// The carried items, in pickup order.
    pub content: Vec<Items>,
}

impl Inventory {
    /// Well-formedness: the carried load stays below [`INVENTORY_CAP`].
    pub open spec fn wf(self) -> bool {
        self.content@.len() <= INVENTORY_CAP
    }

    /// An empty inventory.
    pub fn new() -> (r: Inventory)
        ensures
            r.content@ =~= Seq::<Items>::empty(),
            r.wf(),
    {
        Inventory { content: Vec::new() }
    }

    /// Picks one more item up.
    pub fn add(&mut self, name: Items)
        requires
            old(self).content@.len() < INVENTORY_CAP,
        ensures
            final(self).content@ =~= old(self).content@.push(name),
            final(self).wf(),
    {
        self.content.push(name);
    }

    /// How many copies of `name` are carried.
    pub fn amount(&self, name: Items) -> (r: usize)
        ensures
            r == count_items(self.content@, name),
    {
        proof {
            lemma_count_items_le_len(self.content@, name);
        }
        let mut r: usize = 0;
        let mut i: usize = 0;
        while i < self.content.len()
            invariant
                i <= self.content@.len(),
                r == count_items(self.content@.take(i as int), name),
                r <= i,
            decreases self.content@.len() - i,
        {
            proof {
                assert(self.content@.take(i + 1).drop_last() =~= self.content@.take(i as int));
                assert(self.content@.take(i + 1).last() == self.content@[i as int]);
            }
            if self.content[i] == name {
                r = r + 1;
            }
            i = i + 1;
        }
        proof {
            assert(self.content@.take(self.content@.len() as int) =~= self.content@);
        }
        r
    }
}

impl Items {
    /// The shot-time upgrade this item contributes; none of the stock
    /// items contributes one.
    pub fn get_shoot_function(&self) -> (r: Option<crate::items::ShootUpgrade>)
        ensures
            r is None,
    {
        match self {
            Items::HealthApple => None,
            Items::Mercury => None,
        }
    }
}

impl Inventory {
    /// Collects the shot-time upgrades of every carried item; with the
    /// stock items the collection is empty.
    pub fn get_all_shooting_function(&self) -> (r: Vec<crate::items::ShootUpgrade>)
        ensures
            r@ =~= Seq::<crate::items::ShootUpgrade>::empty(),
    {
        let mut functions: Vec<crate::items::ShootUpgrade> = Vec::new();
        let mut i: usize = 0;
        while i < self.content.len()
            invariant
                functions@ =~= Seq::<crate::items::ShootUpgrade>::empty(),
            decreases self.content@.len() - i,
        {
            if let Some(function) = self.content[i].get_shoot_function() {
                functions.push(function);
            }
            i = i + 1;
        }
        functions
    }
}

/// Applies the effect a picked-up item has on combat statistics.
pub fn pickup_events(stats: &mut PlayerStats, item: Items)
    requires
        old(stats).wf(),
        old(stats).max_health + 50 <= TUNABLE_CAP,
    ensures
        final(stats).wf(),
        item == Items::HealthApple ==> *final(stats) == (PlayerStats {
            max_health: (old(stats).max_health + 50) as i64,
            current_health: (old(stats).current_health + 50) as i64,
            ..*old(stats)
        }),
        item != Items::HealthApple ==> *final(stats) == *old(stats),
{
    match item {
        Items::HealthApple => {
            stats.max_health = stats.max_health + 50;
            stats.current_health = stats.current_health + 50;
        },
        _ => {},
    }
}

/// Reverts the effect of a dropped item on combat statistics.
pub fn drop_events(stats: &mut PlayerStats, item: Items)
    requires
        old(stats).wf(),
        item == Items::HealthApple ==> old(stats).max_health >= 50 && old(stats).current_health
            - 50 >= -VALUE_CAP,
    ensures
        final(stats).wf(),
        item == Items::HealthApple ==> *final(stats) == (PlayerStats {
            max_health: (old(stats).max_health - 50) as i64,
            current_health: (old(stats).current_health - 50) as i64,
            ..*old(stats)
        }),
        item != Items::HealthApple ==> *final(stats) == *old(stats),
{
    match item {
        Items::HealthApple => {
            stats.max_health = stats.max_health - 50;
            stats.current_health = stats.current_health - 50;
        },
        _ => {},
    }
}

/// The weapons a combatant carries, with the index of the one in hand.
#[derive(Clone, PartialEq, Eq, Debug)]
pub struct Armory {
    /// Handles of the carried weapon entities, in pickup order.
    pub content: Vec<u64>,
    /// Index of the weapon currently wielded.
    pub current_weapon_index: usize,
}

impl Armory {
    /// Well-formedness: the index never runs past the carried weapons.
    pub open spec fn wf(self) -> bool {
        &&& self.current_weapon_index <= self.content@.len()
        &&& self.content@.len() < usize::MAX
    }

    /// An empty armory.
    pub fn new() -> (r: Armory)
        ensures
            r.content@ =~= Seq::<u64>::empty(),
            r.current_weapon_index == 0,
            r.wf(),
    {
        Armory { content: Vec::new(), current_weapon_index: 0 }
    }

    /// Stores one more weapon at the back.
    pub fn add(&mut self, entity: u64)
        requires
            old(self).wf(),
            old(self).content@.len() + 1 < usize::MAX,
        ensures
            final(self).content@ =~= old(self).content@.push(entity),
            final(self).current_weapon_index == old(self).current_weapon_index,
            final(self).wf(),
    {
        self.content.push(entity);
    }

    /// Steps the wielded index forward, wrapping to the front once it runs
    /// past the carried weapons.
    pub fn next(&mut self) -> (r: usize)
        requires
            old(self).wf(),
        ensures
            final(self).content@ == old(self).content@,
            final(self).current_weapon_index == (if old(self).current_weapon_index + 1
                > old(self).content@.len() {
                0int
            } else {
                old(self).current_weapon_index + 1
            }),
            r == final(self).current_weapon_index,
            final(self).wf(),
    {
        self.current_weapon_index = self.current_weapon_index + 1;
        if self.current_weapon_index > self.content.len() {
            self.current_weapon_index = 0;
        }
        self.current_weapon_index
    }
}

/// Stores a picked-up weapon at the back of the armory and wields it at
/// once, returning the handle to holster.
pub fn pickup_weapon(armory: &mut Armory, pickup: u64) -> (holstered: Option<u64>)
    requires
        old(armory).wf(),
        old(armory).content@.len() + 1 < usize::MAX,
        old(armory).current_weapon_index < old(armory).content@.len() || old(
            armory).content@.len() == 0,
    ensures
        final(armory).content@ =~= old(armory).content@.push(pickup),
        final(armory).current_weapon_index == final(armory).content@.len() - 1,
        final(armory).wf(),
        holstered == (if old(armory).content@.len() > 0 {
            Some(old(armory).content@[old(armory).current_weapon_index as int])
        } else {
            Option::<u64>::None
        }),
{
    let holstered = if armory.content.len() > 0 {
        Some(armory.content[armory.current_weapon_index])
    } else {
        None
    };
    armory.add(pickup);
    armory.current_weapon_index = armory.content.len() - 1;
    holstered
}

/// A weapon-switch request: one step forward or one step back.
#[derive(Clone, Copy, PartialEq, Eq, Structural, Debug)]
pub enum SwitchRequest {
    /// Wield the next carried weapon.
    NextWeapon,
    /// Wield the previous carried weapon.
    LastWeapon,
}

/// What [`switch_weapon`] leaves in `current_weapon_index`.
pub open spec fn switch_weapon_spec(a: Armory, req: SwitchRequest) -> int {
    if a.content@.len() <= 1 {
        a.current_weapon_index as int
    } else if req == SwitchRequest::NextWeapon {
        if a.current_weapon_index + 1 >= a.content@.len() {
            0
        } else {
            a.current_weapon_index + 1
        }
    } else {
        if a.current_weapon_index == 0 {
            a.content@.len() - 1
        } else {
            a.current_weapon_index - 1
        }
    }
}

/// Cycles the wielded weapon one step in the requested direction; with one
/// or no weapon carried there is nothing to cycle through.
pub fn switch_weapon(armory: &mut Armory, req: SwitchRequest) -> (r: Option<u64>)
    requires
        old(armory).wf(),
    ensures
        final(armory).content@ == old(armory).content@,
        final(armory).current_weapon_index == switch_weapon_spec(*old(armory), req),
        final(armory).wf(),
        r matches Some(id) ==> old(armory).content@.len() > 1 && id == old(
            armory,
        ).content@[final(armory).current_weapon_index as int],
        r is None <==> old(armory).content@.len() <= 1,
{
    if armory.content.len() <= 1 {
        return None;
    }
    match req {
        SwitchRequest::NextWeapon => {
            armory.current_weapon_index = armory.current_weapon_index + 1;
            if armory.current_weapon_index >= armory.content.len() {
                armory.current_weapon_index = 0;
            }
        },
        SwitchRequest::LastWeapon => {
            if armory.current_weapon_index == 0 {
                armory.current_weapon_index = armory.content.len() - 1;
            } else {
                armory.current_weapon_index = armory.current_weapon_index - 1;
            }
        },
    }
    Some(armory.content[armory.current_weapon_index])
}

/// What the index becomes after the wielded weapon is dropped.
pub open spec fn drop_weapon_index_spec(removed: Seq<u64>, idx: int) -> int {
    if idx >= removed.len() - 1 {
        0
    } else {
        idx
    }
}

/// Drops the wielded weapon: removes it from the armory and re-aims the
/// index, returning the dropped handle and, when one remains, the handle now
/// wielded.  With nothing wielded (an empty armory, or an index past the
/// end) there is nothing to drop.
pub fn drop_weapon(armory: &mut Armory) -> (r: Option<(u64, Option<u64>)>)
    requires
        old(armory).wf(),
    ensures
        final(armory).wf(),
        old(armory).current_weapon_index >= old(armory).content@.len() ==> r is None && *final(
            armory) == *old(armory),
        old(armory).current_weapon_index < old(armory).content@.len() ==> {
            &&& final(armory).content@ == old(armory).content@.remove(
                old(armory).current_weapon_index as int,
            )
            &&& final(armory).current_weapon_index == drop_weapon_index_spec(
                final(armory).content@,
                old(armory).current_weapon_index as int,
            )
            &&& r matches Some((dropped, wielded)) ==> dropped == old(armory).content@[old(
                armory,
            ).current_weapon_index as int] && wielded == (if final(armory).content@.len() > 0 {
                Some(final(armory).content@[final(armory).current_weapon_index as int])
            } else {
                Option::<u64>::None
            })
            &&& r is Some
        },
{
    if armory.current_weapon_index >= armory.content.len() {
        return None;
    }
    let current_index = armory.current_weapon_index;
    let gun = armory.content.remove(current_index);
    if armory.current_weapon_index + 1 >= armory.content.len() {
        armory.current_weapon_index = 0;
    }
    if armory.content.len() > 0 {
        let wielded = armory.content[armory.current_weapon_index];
        Some((gun, Some(wielded)))
    } else {
        Some((gun, None))
    }
}

} // verus!
