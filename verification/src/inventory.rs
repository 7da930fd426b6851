//! The three places where a character keeps items: the hand, the belt and the
//! backpack.

use vstd::prelude::*;
use vstd::string::StringExecFns;
use crate::item::{HeldItem, Item};
use crate::ratio::Ratio;

verus! {

/// What a character carries. The backpack keeps its items in the order in
/// which they were picked up.
#[derive(Clone, Debug, PartialEq, Eq)]
pub struct Inventory {
    pub hand: Option<HeldItem>,
    pub belt: Option<HeldItem>,
    pub backpack: Vec<HeldItem>,
}

/// The contents of an inventory.
pub struct Slots {
    pub hand: Option<HeldItem>,
    pub belt: Option<HeldItem>,
    pub backpack: Seq<HeldItem>,
}

/// Something found near a character: an entity, and the item that it is, if
/// it is one.
#[derive(Clone, Copy, Debug, PartialEq, Eq)]
pub struct Found {
    pub entity: u64,
    pub item: Option<Item>,
}

impl View for Inventory {
    type V = Slots;

    open spec fn view(&self) -> Slots {
        Slots { hand: self.hand, belt: self.belt, backpack: self.backpack@ }
    }
}

/// A slot after `delta` more nanoseconds.
pub open spec fn slot_ticked(slot: Option<HeldItem>, delta: u64) -> Option<HeldItem> {
    match slot {
        Some(held) => Some(held.ticked(delta)),
        None => None,
    }
}

/// What a slot contributes to the list of items.
pub open spec fn slot_items(slot: Option<HeldItem>) -> Seq<HeldItem> {
    match slot {
        Some(held) => seq![held],
        None => Seq::<HeldItem>::empty(),
    }
}

/// The lines `lines`, each but the last followed by a line break.
pub open spec fn joined(lines: Seq<Seq<char>>) -> Seq<char>
    decreases lines.len(),
{
    if lines.len() == 0 {
        Seq::<char>::empty()
    } else if lines.len() == 1 {
        lines[0]
    } else {
        joined(lines.drop_last()) + "\n"@ + lines.last()
    }
}

/// The entities among the first `n` of `found` that are items, in order.
pub open spec fn taken(found: Seq<Found>, n: nat) -> Seq<u64>
    recommends
        n <= found.len(),
    decreases n,
{
    if n == 0 {
        Seq::<u64>::empty()
    } else if found[n - 1].item is Some {
        taken(found, (n - 1) as nat).push(found[n - 1].entity)
    } else {
        taken(found, (n - 1) as nat)
    }
}

impl Slots {
    /// Nothing in any slot.
    pub open spec fn empty() -> Slots {
        Slots { hand: None, belt: None, backpack: Seq::<HeldItem>::empty() }
    }

    /// The contents after picking up `item`: it goes to the hand if that is
    /// free, else to the belt if that is free, else to the end of the
    /// backpack.
    pub open spec fn picked_up(self, item: Item) -> Slots {
        let held = HeldItem { item, time_since_last_use: None };
        if self.hand is None {
            Slots { hand: Some(held), ..self }
        } else if self.belt is None {
            Slots { belt: Some(held), ..self }
        } else {
            Slots { backpack: self.backpack.push(held), ..self }
        }
    }

    /// The contents after picking up, in order, each item among the first `n`
    /// of `found`.
    pub open spec fn gathered(self, found: Seq<Found>, n: nat) -> Slots
        recommends
            n <= found.len(),
        decreases n,
    {
        if n == 0 {
            self
        } else {
            let before = self.gathered(found, (n - 1) as nat);
            match found[n - 1].item {
                Some(item) => before.picked_up(item),
                None => before,
            }
        }
    }

    /// The contents with hand and belt exchanged.
    pub open spec fn switched(self) -> Slots {
        Slots { hand: self.belt, belt: self.hand, backpack: self.backpack }
    }

    /// The contents after `delta` more nanoseconds: every item ages, in
    /// whatever slot it is.
    pub open spec fn ticked(self, delta: u64) -> Slots {
        Slots {
            hand: slot_ticked(self.hand, delta),
            belt: slot_ticked(self.belt, delta),
            backpack: self.backpack.map_values(|held: HeldItem| held.ticked(delta)),
        }
    }

    /// Every item carried: hand, then belt, then the backpack in order.
    pub open spec fn items(self) -> Seq<HeldItem> {
        slot_items(self.hand) + slot_items(self.belt) + self.backpack
    }

    /// What is shown for the inventory: the label of every item carried, one
    /// line each.
    pub open spec fn listing(self) -> Seq<char> {
        joined(self.items().map_values(|held: HeldItem| held.label()))
    }
}

impl Inventory {
    /// An inventory with nothing in it.
    pub fn new() -> (inventory: Inventory)
        ensures
            inventory@ == Slots::empty(),
    {
        Inventory { hand: None, belt: None, backpack: Vec::new() }
    }

    /// Puts `item` into the first free place: hand, belt, then the end of
    /// the backpack.
    pub fn pick_up(&mut self, item: Item)
        ensures
            final(self)@ == old(self)@.picked_up(item),
    {
        let held = HeldItem::new(item);
        if self.hand.is_none() {
            self.hand = Some(held);
        } else if self.belt.is_none() {
            self.belt = Some(held);
        } else {
            self.backpack.push(held);
        }
    }

    /// Picks up every item among `found`, in the order given, and returns
    /// the entities that were taken and are to leave the world.
    pub fn pick_up_items(&mut self, found: &Vec<Found>) -> (gone: Vec<u64>)
        ensures
            final(self)@ == old(self)@.gathered(found@, found@.len()),
            gone@ == taken(found@, found@.len()),
    {
        let mut gone: Vec<u64> = Vec::new();
        let mut i: usize = 0;
        while i < found.len()
            invariant
                i <= found@.len(),
                self@ == old(self)@.gathered(found@, i as nat),
                gone@ == taken(found@, i as nat),
            decreases found@.len() - i,
        {
            let candidate = found[i];
            match candidate.item {
                Some(item) => {
                    self.pick_up(item);
                    gone.push(candidate.entity);
                },
                None => {},
            }
            i = i + 1;
        }
        gone
    }

    /// Exchanges what is in the hand with what is on the belt.
    pub fn switch_hands(&mut self)
        ensures
            final(self)@ == old(self)@.switched(),
    {
        let left = self.belt;
        let right = self.hand;
        self.belt = right;
        self.hand = left;
    }

    /// Lets `delta` nanoseconds pass for every item carried.
    pub fn tick(&mut self, delta: u64)
        ensures
            final(self)@ == old(self)@.ticked(delta),
    {
        match self.hand {
            Some(mut held) => {
                held.tick(delta);
                self.hand = Some(held);
            },
            None => {},
        }
        match self.belt {
            Some(mut held) => {
                held.tick(delta);
                self.belt = Some(held);
            },
            None => {},
        }
        let mut i: usize = 0;
        while i < self.backpack.len()
            invariant
                i <= self.backpack@.len(),
                self.hand == slot_ticked(old(self).hand, delta),
                self.belt == slot_ticked(old(self).belt, delta),
                self.backpack@.len() == old(self).backpack@.len(),
                forall|k: int| 0 <= k < i ==> self.backpack@[k] == old(self).backpack@[k].ticked(delta),
                forall|k: int|
                    i <= k < self.backpack@.len() ==> self.backpack@[k] == old(self).backpack@[k],
            decreases self.backpack@.len() - i,
        {
            let mut held = self.backpack[i];
            held.tick(delta);
            self.backpack[i] = held;
            i = i + 1;
        }
        proof {
            assert(self.backpack@ =~= old(self).backpack@.map_values(
                |held: HeldItem| held.ticked(delta),
            ));
        }
    }

    /// Every item carried: hand, then belt, then the backpack in order.
    pub fn items(&self) -> (all: Vec<HeldItem>)
        ensures
            all@ == self@.items(),
    {
        let mut all: Vec<HeldItem> = Vec::new();
        match self.hand {
            Some(held) => {
                all.push(held);
            },
            None => {},
        }
        match self.belt {
            Some(held) => {
                all.push(held);
            },
            None => {},
        }
        let ghost front = all@;
        assert(front =~= slot_items(self.hand) + slot_items(self.belt));
        let mut i: usize = 0;
        while i < self.backpack.len()
            invariant
                i <= self.backpack@.len(),
                all@ == front + self.backpack@.take(i as int),
            decreases self.backpack@.len() - i,
        {
            all.push(self.backpack[i]);
            proof {
                assert(self.backpack@.take(i + 1) =~= self.backpack@.take(i as int).push(
                    self.backpack@[i as int],
                ));
                assert(all@ =~= front + self.backpack@.take(i + 1));
            }
            i = i + 1;
        }
        proof {
            assert(self.backpack@.take(self.backpack@.len() as int) =~= self.backpack@);
        }
        all
    }

    /// What is shown for the inventory: the label of every item carried, one
    /// line each.
    pub fn listing(&self) -> (text: String)
        ensures
            text@ == self@.listing(),
    {
        let items = self.items();
        let ghost labels = items@.map_values(|held: HeldItem| held.label());
        let mut text = String::new();
        let mut i: usize = 0;
        while i < items.len()
            invariant
                i <= items@.len(),
                labels == items@.map_values(|held: HeldItem| held.label()),
                text@ == joined(labels.take(i as int)),
            decreases items@.len() - i,
        {
            if i > 0 {
                text.append("\n");
            }
            let label = items[i].to_string();
            text.append(label.as_str());
            proof {
                let shorter = labels.take(i as int);
                let longer = labels.take(i + 1);
                assert(longer.drop_last() =~= shorter);
                assert(longer.last() == items@[i as int].label());
                if i == 0 {
                    assert(text@ =~= longer[0]);
                }
            }
            i = i + 1;
        }
        proof {
            assert(labels.take(items@.len() as int) =~= labels);
        }
        text
    }

    /// Whether the hand holds an item of this kind.
    pub fn wields(&self, item: Item) -> (b: bool)
        ensures
            b == (self.hand is Some && self.hand->Some_0.item == item),
    {
        match self.hand {
            Some(held) => match (held.item, item) {
                (Item::Sword, Item::Sword) => true,
                (Item::Gun, Item::Gun) => true,
                _ => false,
            },
            None => false,
        }
    }
}

/// How near an item must be to be picked up: within one unit.
pub fn pickup_reach() -> (reach: Ratio)
    ensures
        reach == (Ratio { num: 1, den: 1 }),
{
    Ratio::whole(1)
}

impl Default for Inventory {
    fn default() -> (inventory: Inventory)
        ensures
            inventory@ == Slots::empty(),
    {
        Inventory::new()
    }
}

/// Exchanging hand and belt twice leaves the inventory as it was.
pub proof fn lemma_switch_twice(slots: Slots)
    ensures
        slots.switched().switched() == slots,
        slots.switched().items().len() == slots.items().len(),
{
}

/// Picking up an item adds that item, never used, and moves nothing that is
/// carried already.
pub proof fn lemma_pick_up_adds_one(slots: Slots, item: Item)
    ensures
        slots.picked_up(item).items().len() == slots.items().len() + 1,
        slots.picked_up(item).items().contains(HeldItem { item, time_since_last_use: None }),
        slots.hand is Some ==> slots.picked_up(item).hand == slots.hand,
        slots.belt is Some ==> slots.picked_up(item).belt == slots.belt,
        slots.backpack.is_prefix_of(slots.picked_up(item).backpack),
        slots.hand is None || slots.belt is None ==> slots.picked_up(item).backpack
            == slots.backpack,
{
    let held = HeldItem { item, time_since_last_use: None };
    let after = slots.picked_up(item);
    if slots.hand is None {
        assert(after.items()[0] == held);
    } else if slots.belt is None {
        assert(after.items()[1] == held);
    } else {
        assert(after.items()[after.items().len() - 1] == held);
    }
}

/// Time that passes in two steps ages every item as it does in one.
pub proof fn lemma_tick_adds(slots: Slots, first: u64, second: u64)
    requires
        first + second <= u64::MAX,
    ensures
        slots.ticked(first).ticked(second) == slots.ticked((first + second) as u64),
        slots.ticked(first).items().len() == slots.items().len(),
{
    let sum = (first + second) as u64;
    assert(slots.ticked(first).ticked(second).backpack =~= slots.ticked(sum).backpack);
}

} // verus!
