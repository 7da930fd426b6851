//! Items that a character can hold, and the cooldown of each.
//!
//! Time is counted in whole nanoseconds.

use vstd::prelude::*;
use vstd::string::StringExecFns;

verus! {

/// Nanoseconds in a hundredth of a second.
pub const NANOS_PER_HUNDREDTH: u64 = 10_000_000;

/// Something a character can pick up and use.
#[derive(Clone, Copy, Debug, PartialEq, Eq)]
pub enum Item {
    Sword,
    Gun,
}

/// An item in an inventory slot, with the time since it was last used.
/// An item that was never used has no such time.
#[derive(Clone, Copy, Debug, PartialEq, Eq)]
pub struct HeldItem {
    pub item: Item,
    pub time_since_last_use: Option<u64>,
}

/// The character that writes the decimal digit `d`.
pub open spec fn digit_char(d: int) -> char {
    if d == 0 {
        '0'
    } else if d == 1 {
        '1'
    } else if d == 2 {
        '2'
    } else if d == 3 {
        '3'
    } else if d == 4 {
        '4'
    } else if d == 5 {
        '5'
    } else if d == 6 {
        '6'
    } else if d == 7 {
        '7'
    } else if d == 8 {
        '8'
    } else {
        '9'
    }
}

/// The decimal numeral of `n`, without leading zeros.
pub open spec fn decimal(n: nat) -> Seq<char>
    decreases n,
{
    if n < 10 {
        seq![digit_char(n as int)]
    } else {
        decimal(n / 10).push(digit_char((n % 10) as int))
    }
}

/// A time span rounded to the nearest hundredth of a second, a half rounding
/// up.
pub open spec fn hundredths(nanos: nat) -> nat {
    (nanos + 5_000_000) / 10_000_000
}

/// A time span in seconds with two decimals, such as `0.13`.
pub open spec fn seconds_text(nanos: nat) -> Seq<char> {
    let h = hundredths(nanos);
    decimal(h / 100) + seq!['.', digit_char(((h / 10) % 10) as int), digit_char((h % 10) as int)]
}

fn digit_str(d: u64) -> (s: &'static str)
    requires
        d < 10,
    ensures
        s@ == seq![digit_char(d as int)],
{
    proof {
        reveal_strlit("0");
        reveal_strlit("1");
        reveal_strlit("2");
        reveal_strlit("3");
        reveal_strlit("4");
        reveal_strlit("5");
        reveal_strlit("6");
        reveal_strlit("7");
        reveal_strlit("8");
        reveal_strlit("9");
    }
    let s = if d == 0 {
        "0"
    } else if d == 1 {
        "1"
    } else if d == 2 {
        "2"
    } else if d == 3 {
        "3"
    } else if d == 4 {
        "4"
    } else if d == 5 {
        "5"
    } else if d == 6 {
        "6"
    } else if d == 7 {
        "7"
    } else if d == 8 {
        "8"
    } else {
        "9"
    };
    assert(s@ =~= seq![digit_char(d as int)]);
    s
}

fn push_decimal(text: &mut String, n: u64)
    ensures
        final(text)@ == old(text)@ + decimal(n as nat),
    decreases n,
{
    if n >= 10 {
        push_decimal(text, n / 10);
    }
    text.append(digit_str(n % 10));
    proof {
        if n >= 10 {
            assert(final(text)@ =~= old(text)@ + decimal(n as nat));
        } else {
            assert(final(text)@ =~= old(text)@ + decimal(n as nat));
        }
    }
}

fn push_seconds(text: &mut String, nanos: u64)
    ensures
        final(text)@ == old(text)@ + seconds_text(nanos as nat),
{
    let h: u64 = nanos / NANOS_PER_HUNDREDTH + (if nanos % NANOS_PER_HUNDREDTH >= 5_000_000 {
        1u64
    } else {
        0u64
    });
    assert(h == hundredths(nanos as nat));
    push_decimal(text, h / 100);
    proof {
        reveal_strlit(".");
    }
    text.append(".");
    text.append(digit_str((h / 10) % 10));
    text.append(digit_str(h % 10));
    proof {
        assert(final(text)@ =~= old(text)@ + seconds_text(nanos as nat));
    }
}

impl Item {
    /// The time that must pass after a use before the next.
    pub open spec fn spec_cooldown(&self) -> u64 {
        match self {
            Item::Sword => 200_000_000,
            Item::Gun => 1_000_000_000,
        }
    }

    /// The name shown for the item.
    pub open spec fn name(self) -> Seq<char> {
        match self {
            Item::Sword => "Sword"@,
            Item::Gun => "Gun"@,
        }
    }

    /// The time that must pass after a use before the next: 200 ms for a
    /// sword, one second for a gun.
    #[verifier::when_used_as_spec(spec_cooldown)]
    pub fn cooldown(&self) -> (d: u64)
        ensures
            d == self.spec_cooldown(),
    {
        match self {
            Item::Sword => 200_000_000,
            Item::Gun => 1_000_000_000,
        }
    }

    /// The name shown for the item.
    pub fn to_string(&self) -> (s: String)
        ensures
            s@ == self.name(),
    {
        match self {
            Item::Sword => String::from_str("Sword"),
            Item::Gun => String::from_str("Gun"),
        }
    }
}

impl HeldItem {
    /// Whether the item may be used now: it was never used, or its cooldown
    /// has passed since.
    pub open spec fn usable(self) -> bool {
        match self.time_since_last_use {
            None => true,
            Some(elapsed) => elapsed >= self.item.cooldown(),
        }
    }

    /// The part of the cooldown that is still to pass.
    pub open spec fn remaining(self) -> nat {
        match self.time_since_last_use {
            Some(elapsed) if elapsed < self.item.cooldown() => (self.item.cooldown()
                - elapsed) as nat,
            _ => 0,
        }
    }

    /// The item after `delta` more nanoseconds: a running time advances and
    /// stops at the largest value it can hold.
    pub open spec fn ticked(self, delta: u64) -> HeldItem {
        match self.time_since_last_use {
            None => self,
            Some(elapsed) => HeldItem {
                item: self.item,
                time_since_last_use: Some(
                    if elapsed + delta > u64::MAX {
                        u64::MAX
                    } else {
                        (elapsed + delta) as u64
                    },
                ),
            },
        }
    }

    /// The item right after a use.
    pub open spec fn used(self) -> HeldItem {
        HeldItem { item: self.item, time_since_last_use: Some(0) }
    }

    /// What is shown for the item: its name, followed while it is on cooldown
    /// by the remaining time in brackets.
    pub open spec fn label(self) -> Seq<char> {
        if self.usable() {
            self.item.name()
        } else {
            self.item.name() + " ("@ + seconds_text(self.remaining()) + "s)"@
        }
    }

    /// A freshly picked up item, never used.
    pub fn new(item: Item) -> (held: HeldItem)
        ensures
            held == (HeldItem { item, time_since_last_use: None }),
            held.usable(),
    {
        HeldItem { item, time_since_last_use: None }
    }

    /// Whether the item may be used now.
    pub fn is_usable(&self) -> (b: bool)
        ensures
            b == self.usable(),
    {
        match self.time_since_last_use {
            None => true,
            Some(elapsed) => elapsed >= self.item.cooldown(),
        }
    }

    /// The part of the cooldown that is still to pass, zero for a usable item.
    pub fn remaining_cooldown(&self) -> (left: u64)
        ensures
            left == self.remaining(),
            left == 0 <==> self.usable(),
    {
        match self.time_since_last_use {
            None => 0,
            Some(elapsed) => {
                let cooldown: u64 = self.item.cooldown();
                if elapsed < cooldown {
                    cooldown - elapsed
                } else {
                    0
                }
            },
        }
    }

    /// Lets `delta` nanoseconds pass.
    pub fn tick(&mut self, delta: u64)
        ensures
            *final(self) == old(self).ticked(delta),
    {
        match self.time_since_last_use {
            None => {},
            Some(elapsed) => {
                let sum: u64 = if elapsed <= u64::MAX - delta {
                    elapsed + delta
                } else {
                    u64::MAX
                };
                self.time_since_last_use = Some(sum);
            },
        }
    }

    /// Starts the cooldown anew.
    pub fn mark_used(&mut self)
        ensures
            *final(self) == old(self).used(),
    {
        self.time_since_last_use = Some(0);
    }

    /// What is shown for the item.
    pub fn to_string(&self) -> (s: String)
        ensures
            s@ == self.label(),
    {
        let mut text = self.item.to_string();
        let left: u64 = self.remaining_cooldown();
        if left > 0 {
            text.append(" (");
            push_seconds(&mut text, left);
            text.append("s)");
        }
        proof {
            assert(text@ =~= self.label());
        }
        text
    }
}

} // verus!
