//! Attacks: when the item in hand may be used, which rays an attack casts,
//! and which of the entities that the rays met are struck.
//!
//! Angles are given in half turns: an angle `a` stands for `a` times pi
//! radians.

use vstd::prelude::*;
use crate::inventory::{Inventory, Slots};
use crate::item::Item;
use crate::ratio::Ratio;

verus! {

/// Rays across the width of a sword sweep.
pub const SWEEP_COLUMNS: u32 = 31;

/// Rays across the height of a sword sweep.
pub const SWEEP_ROWS: u32 = 3;

/// The attack that a character intends.
#[derive(Clone, Copy, Eq, Ord, PartialEq, PartialOrd, Debug)]
pub enum AttackState {
    Primary,
    Secondary,
}

/// What an attack does in the world.
#[derive(Clone, Copy, Debug, PartialEq, Eq)]
pub enum AttackPlan {
    /// Nothing is cast.
    Idle,
    /// One ray along the looking direction.
    Shot,
    /// A fan of rays around the looking direction.
    Sweep,
}

/// The direction of a ray: the looking direction turned by `yaw` about the
/// character's up axis after being turned by `pitch` about its right axis.
#[derive(Clone, Copy, Debug, PartialEq, Eq)]
pub struct Aim {
    pub yaw: Ratio,
    pub pitch: Ratio,
}

/// What a struck entity suffers: a loss of health, and a push along the
/// attacker's looking direction.
#[derive(Clone, Copy, Debug, PartialEq, Eq)]
pub struct Blow {
    pub damage: Ratio,
    pub knockback: Ratio,
}

/// What using `item` for `attack` does.
pub open spec fn plan_of(item: Item, attack: AttackState) -> AttackPlan {
    match (item, attack) {
        (Item::Gun, AttackState::Primary) => AttackPlan::Shot,
        (Item::Sword, AttackState::Primary) => AttackPlan::Sweep,
        (Item::Gun, AttackState::Secondary) => AttackPlan::Idle,
        (Item::Sword, AttackState::Secondary) => AttackPlan::Idle,
    }
}

/// Whether an attack takes place: an attack is intended, the hand holds an
/// item, and that item is off cooldown.
pub open spec fn fires(slots: Slots, intent: Option<AttackState>) -> bool {
    &&& intent is Some
    &&& slots.hand is Some
    &&& slots.hand->Some_0.usable()
}

/// What the intended attack does.
pub open spec fn planned(slots: Slots, intent: Option<AttackState>) -> AttackPlan {
    if fires(slots, intent) {
        plan_of(slots.hand->Some_0.item, intent->Some_0)
    } else {
        AttackPlan::Idle
    }
}

/// The inventory after the intended attack: an item that was used starts its
/// cooldown anew.
pub open spec fn after_attack(slots: Slots, intent: Option<AttackState>) -> Slots {
    if fires(slots, intent) {
        Slots { hand: Some(slots.hand->Some_0.used()), ..slots }
    } else {
        slots
    }
}

/// The inventory after the time spans `deltas` have passed one after
/// another.
pub open spec fn aged(slots: Slots, deltas: Seq<u64>) -> Slots
    decreases deltas.len(),
{
    if deltas.len() == 0 {
        slots
    } else {
        aged(slots, deltas.drop_last()).ticked(deltas.last())
    }
}

/// The sum of the time spans `deltas`.
pub open spec fn total(deltas: Seq<u64>) -> nat
    decreases deltas.len(),
{
    if deltas.len() == 0 {
        0
    } else {
        total(deltas.drop_last()) + deltas.last() as nat
    }
}

/// The ray at place `k` of a sweep: column `k / 3` of 31, spread evenly
/// across a quarter of a half turn to either side, and row `k % 3` of 3,
/// spread evenly across a tenth of a half turn up and down.
pub open spec fn sweep_aim(k: int) -> Aim {
    Aim {
        yaw: Ratio { num: (k / 3 - 15) as i64, den: 60 },
        pitch: Ratio { num: (k % 3 - 1) as i64, den: 10 },
    }
}

/// The ray that follows the looking direction.
pub open spec fn straight() -> Aim {
    Aim { yaw: Ratio { num: 0, den: 1 }, pitch: Ratio { num: 0, den: 1 } }
}

/// The rays that a plan casts, in order.
pub open spec fn aims_of(plan: AttackPlan) -> Seq<Aim> {
    match plan {
        AttackPlan::Idle => Seq::<Aim>::empty(),
        AttackPlan::Shot => seq![straight()],
        AttackPlan::Sweep => Seq::new(93, |k: int| sweep_aim(k)),
    }
}

/// How far the rays of a plan reach.
pub open spec fn reach_of(plan: AttackPlan) -> Ratio {
    match plan {
        AttackPlan::Idle => Ratio { num: 0, den: 1 },
        AttackPlan::Shot => Ratio { num: 1000, den: 1 },
        AttackPlan::Sweep => Ratio { num: 5, den: 2 },
    }
}

/// The entities met by the first `n` rays, each once, in the order in which
/// they were first met.
pub open spec fn struck(hits: Seq<Option<u64>>, n: nat) -> Seq<u64>
    recommends
        n <= hits.len(),
    decreases n,
{
    if n == 0 {
        Seq::<u64>::empty()
    } else {
        let before = struck(hits, (n - 1) as nat);
        match hits[n - 1] {
            Some(entity) if !before.contains(entity) => before.push(entity),
            _ => before,
        }
    }
}

impl AttackPlan {
    /// The rays to cast, in order.
    pub fn aims(&self) -> (rays: Vec<Aim>)
        ensures
            rays@ == aims_of(*self),
    {
        let mut rays: Vec<Aim> = Vec::new();
        match self {
            AttackPlan::Idle => {},
            AttackPlan::Shot => {
                rays.push(Aim { yaw: Ratio::whole(0), pitch: Ratio::whole(0) });
            },
            AttackPlan::Sweep => {
                let mut column: u32 = 0;
                while column < SWEEP_COLUMNS
                    invariant
                        column <= SWEEP_COLUMNS,
                        rays@.len() == 3 * column,
                        forall|k: int| 0 <= k < rays@.len() ==> rays@[k] == sweep_aim(k),
                    decreases SWEEP_COLUMNS - column,
                {
                    let mut row: u32 = 0;
                    while row < SWEEP_ROWS
                        invariant
                            column < SWEEP_COLUMNS,
                            row <= SWEEP_ROWS,
                            rays@.len() == 3 * column + row,
                            forall|k: int| 0 <= k < rays@.len() ==> rays@[k] == sweep_aim(k),
                        decreases SWEEP_ROWS - row,
                    {
                        rays.push(
                            Aim {
                                yaw: Ratio::new(column as i64 - 15, 60),
                                pitch: Ratio::new(row as i64 - 1, 10),
                            },
                        );
                        row = row + 1;
                    }
                    column = column + 1;
                }
            },
        }
        proof {
            assert(rays@ =~= aims_of(*self));
        }
        rays
    }

    /// How far each ray reaches: 1000 for a shot, 5/2 for a sweep.
    pub fn reach(&self) -> (r: Ratio)
        ensures
            r == reach_of(*self),
            r.wf(),
    {
        match self {
            AttackPlan::Idle => Ratio::whole(0),
            AttackPlan::Shot => Ratio::whole(1000),
            AttackPlan::Sweep => Ratio::new(5, 2),
        }
    }
}

/// Resolves the attack that a character intends with what is in its hand.
/// The item is used, and its cooldown starts anew, whenever an attack is
/// intended and the item is off cooldown.
pub fn attack(inventory: &mut Inventory, intent: Option<AttackState>) -> (plan: AttackPlan)
    ensures
        plan == planned(old(inventory)@, intent),
        final(inventory)@ == after_attack(old(inventory)@, intent),
{
    match (inventory.hand, intent) {
        (Some(mut held), Some(attack)) => {
            if held.is_usable() {
                held.mark_used();
                inventory.hand = Some(held);
                match (held.item, attack) {
                    (Item::Gun, AttackState::Primary) => AttackPlan::Shot,
                    (Item::Sword, AttackState::Primary) => AttackPlan::Sweep,
                    (Item::Gun, AttackState::Secondary) => AttackPlan::Idle,
                    (Item::Sword, AttackState::Secondary) => AttackPlan::Idle,
                }
            } else {
                AttackPlan::Idle
            }
        },
        _ => AttackPlan::Idle,
    }
}

/// The entities that an attack strikes: those that its rays met, each once,
/// however many rays met it, in the order in which they were first met.
pub fn targets(hits: &Vec<Option<u64>>) -> (found: Vec<u64>)
    ensures
        found@ == struck(hits@, hits@.len()),
{
    let mut found: Vec<u64> = Vec::new();
    let mut i: usize = 0;
    while i < hits.len()
        invariant
            i <= hits@.len(),
            found@ == struck(hits@, i as nat),
        decreases hits@.len() - i,
    {
        match hits[i] {
            Some(entity) => {
                let mut known = false;
                let mut j: usize = 0;
                while j < found.len()
                    invariant
                        j <= found@.len(),
                        known == found@.take(j as int).contains(entity),
                    decreases found@.len() - j,
                {
                    if found[j] == entity {
                        known = true;
                    }
                    proof {
                        let shorter = found@.take(j as int);
                        let longer = found@.take(j + 1);
                        assert(longer =~= shorter.push(found@[j as int]));
                        assert(longer[j as int] == found@[j as int]);
                        if shorter.contains(entity) {
                            let w = choose|w: int| 0 <= w < shorter.len() && shorter[w] == entity;
                            assert(longer[w] == entity);
                        }
                    }
                    j = j + 1;
                }
                proof {
                    assert(found@.take(found@.len() as int) =~= found@);
                }
                if !known {
                    found.push(entity);
                }
            },
            None => {},
        }
        i = i + 1;
    }
    found
}

/// What each struck entity suffers: half a point of health, and a push of
/// strength ten.
pub fn blow() -> (b: Blow)
    ensures
        b.damage == (Ratio { num: 1, den: 2 }),
        b.knockback == (Ratio { num: 10, den: 1 }),
{
    Blow { damage: Ratio::new(1, 2), knockback: Ratio::whole(10) }
}

/// The time on an item's clock after the spans `deltas`, had it started at
/// `start`: the sum, stopping at the largest value the clock can hold.
pub open spec fn clock_after(start: u64, deltas: Seq<u64>) -> u64 {
    if start + total(deltas) > u64::MAX {
        u64::MAX
    } else {
        (start + total(deltas)) as u64
    }
}

/// Time only ages the items: the item in hand stays the same item, and its
/// clock, if it runs, shows the time that has passed.
pub proof fn lemma_aged_hand(slots: Slots, deltas: Seq<u64>)
    requires
        slots.hand is Some,
    ensures
        aged(slots, deltas).hand is Some,
        aged(slots, deltas).hand->Some_0.item == slots.hand->Some_0.item,
        slots.hand->Some_0.time_since_last_use is None ==> aged(
            slots,
            deltas,
        ).hand->Some_0.time_since_last_use is None,
        slots.hand->Some_0.time_since_last_use is Some ==> aged(
            slots,
            deltas,
        ).hand->Some_0.time_since_last_use == Some(
            clock_after(slots.hand->Some_0.time_since_last_use->Some_0, deltas),
        ),
    decreases deltas.len(),
{
    if deltas.len() > 0 {
        lemma_aged_hand(slots, deltas.drop_last());
    }
}

/// Cooldown gate: after an attack has used the item in hand, no attack takes
/// place while less than the item's cooldown has passed, in however many
/// ticks; once the cooldown has passed, the next intended attack takes
/// place.
pub proof fn lemma_cooldown_gate(
    slots: Slots,
    first: Option<AttackState>,
    deltas: Seq<u64>,
    second: Option<AttackState>,
)
    requires
        fires(slots, first),
    ensures
        total(deltas) < slots.hand->Some_0.item.cooldown() ==> !fires(
            aged(after_attack(slots, first), deltas),
            second,
        ) && planned(aged(after_attack(slots, first), deltas), second) == AttackPlan::Idle,
        total(deltas) >= slots.hand->Some_0.item.cooldown() && second is Some ==> fires(
            aged(after_attack(slots, first), deltas),
            second,
        ),
{
    lemma_aged_hand(after_attack(slots, first), deltas);
}

/// An attack that does not take place leaves the inventory as it was.
pub proof fn lemma_idle_attack_keeps_inventory(slots: Slots, intent: Option<AttackState>)
    requires
        !fires(slots, intent),
    ensures
        after_attack(slots, intent) == slots,
        planned(slots, intent) == AttackPlan::Idle,
{
}

/// No entity is struck twice by one attack.
pub proof fn lemma_struck_once(hits: Seq<Option<u64>>, n: nat)
    requires
        n <= hits.len(),
    ensures
        struck(hits, n).no_duplicates(),
    decreases n,
{
    if n > 0 {
        lemma_struck_once(hits, (n - 1) as nat);
    }
}

/// An entity is struck exactly when one of the rays met it.
pub proof fn lemma_struck_all(hits: Seq<Option<u64>>, n: nat, entity: u64)
    requires
        n <= hits.len(),
    ensures
        struck(hits, n).contains(entity) <==> hits.take(n as int).contains(Some(entity)),
    decreases n,
{
    if n > 0 {
        let m = (n - 1) as nat;
        lemma_struck_all(hits, m, entity);
        let before = struck(hits, m);
        let shorter = hits.take(m as int);
        let longer = hits.take(n as int);
        assert(longer =~= shorter.push(hits[n - 1]));
        if struck(hits, n).contains(entity) {
            if before.contains(entity) {
                let w = choose|w: int| 0 <= w < shorter.len() && shorter[w] == Some(entity);
                assert(longer[w] == Some(entity));
            } else {
                let w = choose|w: int|
                    0 <= w < struck(hits, n).len() && struck(hits, n)[w] == entity;
                assert(hits[n - 1] == Some(entity));
                assert(longer[n - 1] == Some(entity));
            }
        }
        if longer.contains(Some(entity)) {
            let w = choose|w: int| 0 <= w < longer.len() && longer[w] == Some(entity);
            if w < m {
                assert(shorter[w] == Some(entity));
                assert(before.contains(entity));
                let v = choose|v: int| 0 <= v < before.len() && before[v] == entity;
                assert(struck(hits, n)[v] == entity);
            } else {
                assert(hits[n - 1] == Some(entity));
                if before.contains(entity) {
                    let v = choose|v: int| 0 <= v < before.len() && before[v] == entity;
                    assert(struck(hits, n)[v] == entity);
                } else {
                    assert(struck(hits, n) == before.push(entity));
                    assert(struck(hits, n)[before.len() as int] == entity);
                }
            }
        }
    } else {
        assert(hits.take(0) =~= Seq::<Option<u64>>::empty());
    }
}

/// A sweep casts 93 rays. Each stays within a quarter of a half turn to
/// either side and a tenth of a half turn up and down, the outermost rays
/// reach those bounds, each ray mirrors the one opposite, and the middle ray
/// follows the looking direction.
pub proof fn lemma_sweep_fan(k: int)
    requires
        0 <= k < 93,
    ensures
        aims_of(AttackPlan::Sweep).len() == 93,
        aims_of(AttackPlan::Sweep)[k] == sweep_aim(k),
        sweep_aim(k).yaw.wf() && sweep_aim(k).pitch.wf(),
        (Ratio { num: -1i64, den: 4 }).le(sweep_aim(k).yaw),
        sweep_aim(k).yaw.le(Ratio { num: 1, den: 4 }),
        (Ratio { num: -1i64, den: 10 }).le(sweep_aim(k).pitch),
        sweep_aim(k).pitch.le(Ratio { num: 1, den: 10 }),
        sweep_aim(0).yaw.same(Ratio { num: -1i64, den: 4 }),
        sweep_aim(0).pitch.same(Ratio { num: -1i64, den: 10 }),
        sweep_aim(92).yaw.same(Ratio { num: 1, den: 4 }),
        sweep_aim(92).pitch.same(Ratio { num: 1, den: 10 }),
        sweep_aim(92 - k).yaw.num == -sweep_aim(k).yaw.num,
        sweep_aim(92 - k).pitch.num == -sweep_aim(k).pitch.num,
        sweep_aim(46).yaw.num == 0 && sweep_aim(46).pitch.num == 0,
{
}

} // verus!
