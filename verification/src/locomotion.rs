//! How a character moves: whether it stands on ground, which forces act on
//! it in a tick, and how a jump is charged and released.
//!
//! The sizes of the forces are the caller's; this module decides which of
//! them apply.

use vstd::prelude::*;
use crate::error::Error;
use crate::ratio::Ratio;

verus! {

/// A character of the simulation.
#[derive(Clone, Copy, Debug, PartialEq, Eq)]
pub struct Character {
    pub on_ground: bool,
}

/// The downward query that tells whether a character stands on ground.
#[derive(Clone, Copy, Debug, PartialEq, Eq)]
pub struct GroundProbe {
    /// How far above the character's place the query starts.
    pub lift: Ratio,
    /// How far down the query looks.
    pub distance: Ratio,
}

/// The condition of a character that decides its forces.
#[derive(Clone, Copy, Debug, PartialEq, Eq)]
pub enum LocomotionState {
    /// On ground, with no movement intended.
    GroundedIdle,
    /// On ground, with movement intended.
    GroundedMoving,
    /// Off the ground.
    Airborne,
}

/// The friction of a character's body.
#[derive(Clone, Copy, Debug, PartialEq, Eq)]
pub enum Friction {
    /// The friction that holds a standing character in place.
    Stopped,
    /// No friction.
    Free,
}

/// The acceleration that drives a character along its intended direction.
#[derive(Clone, Copy, Debug, PartialEq, Eq)]
pub enum Drive {
    /// No drive.
    Off,
    /// The acceleration on ground.
    Ground,
    /// The acceleration in the air.
    Air,
}

/// The forces that act on a character in a tick.
#[derive(Clone, Copy, Debug, PartialEq, Eq)]
pub struct ForcePlan {
    pub friction: Friction,
    pub drive: Drive,
    /// Whether the force that pulls the velocity towards the intended
    /// direction applies.
    pub damping: bool,
}

/// The stages of a tick.
#[derive(Clone, Copy, Debug, PartialEq, Eq)]
pub enum Stage {
    /// Characters learn whether they stand on ground.
    Grounding,
    /// Forces and impulses are computed from the intents.
    Locomotion,
    /// The physics engine moves the bodies.
    Physics,
    /// Attacks are resolved.
    Combat,
    /// Entities without health leave the simulation.
    Cleanup,
}

/// A jump that gains strength while the jump intent is held. `elapsed` is
/// the time for which the jump has been charging, if it is.
#[derive(Clone, Copy, Debug, PartialEq, Eq)]
pub struct JumpCharge {
    pub max_charge_time: u64,
    pub elapsed: Option<u64>,
}

/// The state of a character.
pub open spec fn state_of(on_ground: bool, moving: bool) -> LocomotionState {
    if !on_ground {
        LocomotionState::Airborne
    } else if moving {
        LocomotionState::GroundedMoving
    } else {
        LocomotionState::GroundedIdle
    }
}

/// The forces on a character: one that intends no movement is held by
/// friction; one that does is free of friction, and below its top speed it is
/// driven, on ground also damped.
pub open spec fn forces(on_ground: bool, moving: bool, under_max_speed: bool) -> ForcePlan {
    if !moving {
        ForcePlan { friction: Friction::Stopped, drive: Drive::Off, damping: false }
    } else if !under_max_speed {
        ForcePlan { friction: Friction::Free, drive: Drive::Off, damping: false }
    } else if on_ground {
        ForcePlan { friction: Friction::Free, drive: Drive::Ground, damping: true }
    } else {
        ForcePlan { friction: Friction::Free, drive: Drive::Air, damping: false }
    }
}

/// The order of the stages of a tick.
pub open spec fn stages() -> Seq<Stage> {
    seq![Stage::Grounding, Stage::Locomotion, Stage::Physics, Stage::Combat, Stage::Cleanup]
}

/// The time on a clock that showed `elapsed` after `delta` more, stopping at
/// the largest value the clock can hold.
pub open spec fn advanced(elapsed: u64, delta: u64) -> u64 {
    if elapsed + delta > u64::MAX {
        u64::MAX
    } else {
        (elapsed + delta) as u64
    }
}

impl Character {
    /// Records whether the ground probe met something.
    pub fn update_grounded(&mut self, probe_hit: bool)
        ensures
            *final(self) == (Character { on_ground: probe_hit }),
    {
        self.on_ground = probe_hit;
    }

    /// The state of the character, given whether it intends to move.
    pub fn state(&self, moving: bool) -> (s: LocomotionState)
        ensures
            s == state_of(self.on_ground, moving),
    {
        if !self.on_ground {
            LocomotionState::Airborne
        } else if moving {
            LocomotionState::GroundedMoving
        } else {
            LocomotionState::GroundedIdle
        }
    }

    /// The forces that act on the character in this tick. `moving` says
    /// whether the intended direction, laid into the ground plane, is other
    /// than zero; `under_max_speed` whether the speed along it is below the
    /// character's top speed.
    pub fn force_movement(&self, moving: bool, under_max_speed: bool) -> (plan: ForcePlan)
        ensures
            plan == forces(self.on_ground, moving, under_max_speed),
    {
        if !moving {
            ForcePlan { friction: Friction::Stopped, drive: Drive::Off, damping: false }
        } else if !under_max_speed {
            ForcePlan { friction: Friction::Free, drive: Drive::Off, damping: false }
        } else if self.on_ground {
            ForcePlan { friction: Friction::Free, drive: Drive::Ground, damping: true }
        } else {
            ForcePlan { friction: Friction::Free, drive: Drive::Air, damping: false }
        }
    }
}

/// Holds an entity to the rule that nothing is both a character and an
/// object: `InvariantViolation` for an entity that bears both marks.
pub fn check_no_character_and_object(is_character: bool, is_object: bool) -> (r: Result<
    (),
    Error,
>)
    ensures
        is_character && is_object ==> r == Err::<(), Error>(Error::InvariantViolation),
        !(is_character && is_object) ==> r == Ok::<(), Error>(()),
{
    if is_character && is_object {
        Err(Error::InvariantViolation)
    } else {
        Ok(())
    }
}

/// The ground probe: it starts a twentieth of a unit above the character and
/// looks a fifth of a unit down.
pub fn ground_probe() -> (probe: GroundProbe)
    ensures
        probe.lift == (Ratio { num: 1, den: 20 }),
        probe.distance == (Ratio { num: 1, den: 5 }),
{
    GroundProbe { lift: Ratio::new(1, 20), distance: Ratio::new(1, 5) }
}

/// The stages of a tick, in the order in which they run.
pub fn tick_order() -> (order: Vec<Stage>)
    ensures
        order@ == stages(),
{
    let mut order: Vec<Stage> = Vec::new();
    order.push(Stage::Grounding);
    order.push(Stage::Locomotion);
    order.push(Stage::Physics);
    order.push(Stage::Combat);
    order.push(Stage::Cleanup);
    proof {
        assert(order@ =~= stages());
    }
    order
}

impl JumpCharge {
    /// The time to full charge is positive and fits a ratio.
    pub open spec fn wf(self) -> bool {
        0 < self.max_charge_time <= i64::MAX
    }

    /// The charge after a tick of `delta` in which the jump intent is held or
    /// not: held, the charge starts or grows; let go, it ends.
    pub open spec fn stepped(self, held: bool, delta: u64) -> JumpCharge {
        JumpCharge {
            max_charge_time: self.max_charge_time,
            elapsed: if held {
                match self.elapsed {
                    None => Some(0u64),
                    Some(elapsed) => Some(advanced(elapsed, delta)),
                }
            } else {
                None
            },
        }
    }

    /// Whether a jump takes off in a tick: a charging jump is let go while
    /// the character stands on ground.
    pub open spec fn takes_off(self, held: bool, on_ground: bool) -> bool {
        !held && on_ground && self.elapsed is Some
    }

    /// The level of a charge: the share of the time to full charge that has
    /// passed, at most one.
    pub open spec fn level(self) -> Ratio {
        let elapsed = self.elapsed->Some_0;
        Ratio {
            num: if elapsed < self.max_charge_time {
                elapsed as i64
            } else {
                self.max_charge_time as i64
            },
            den: self.max_charge_time as i64,
        }
    }

    /// A jump that is not charging, or `InvalidConfig` when the time to full
    /// charge is zero or beyond what a ratio can hold.
    pub fn new(max_charge_time: u64) -> (r: Result<JumpCharge, Error>)
        ensures
            0 < max_charge_time <= i64::MAX ==> r == Ok::<JumpCharge, Error>(
                JumpCharge { max_charge_time, elapsed: None },
            ),
            !(0 < max_charge_time <= i64::MAX) ==> r == Err::<JumpCharge, Error>(
                Error::InvalidConfig,
            ),
    {
        if 0 < max_charge_time && max_charge_time <= i64::MAX as u64 {
            Ok(JumpCharge { max_charge_time, elapsed: None })
        } else {
            Err(Error::InvalidConfig)
        }
    }

    /// Advances the jump by a tick of `delta`. Returns the level at which the
    /// jump takes off, if it does: the impulse is the least impulse plus that
    /// share of the difference between the greatest and the least. A jump let
    /// go off the ground is dropped.
    pub fn step(&mut self, held: bool, on_ground: bool, delta: u64) -> (jump: Option<Ratio>)
        requires
            old(self).wf(),
        ensures
            *final(self) == old(self).stepped(held, delta),
            final(self).wf(),
            jump is Some <==> old(self).takes_off(held, on_ground),
            jump is Some ==> jump->Some_0 == old(self).level(),
            jump is Some ==> 0 <= jump->Some_0.num <= jump->Some_0.den && jump->Some_0.wf(),
    {
        if held {
            let elapsed: u64 = match self.elapsed {
                None => 0,
                Some(elapsed) => if elapsed <= u64::MAX - delta {
                    elapsed + delta
                } else {
                    u64::MAX
                },
            };
            self.elapsed = Some(elapsed);
            None
        } else {
            let charged = self.elapsed;
            self.elapsed = None;
            match charged {
                Some(elapsed) if on_ground => {
                    let num: u64 = if elapsed < self.max_charge_time {
                        elapsed
                    } else {
                        self.max_charge_time
                    };
                    Some(Ratio::new(num as i64, self.max_charge_time as i64))
                },
                _ => None,
            }
        }
    }
}

/// Jump gating: a jump takes off only from the ground. Off the ground no
/// tick yields an impulse, however long the jump was charged; on ground,
/// letting go of a charging jump always does.
pub proof fn lemma_jump_gating(charge: JumpCharge, held: bool, on_ground: bool)
    ensures
        !on_ground ==> !charge.takes_off(held, on_ground),
        on_ground && charge.elapsed is Some && !held ==> charge.takes_off(held, on_ground),
        charge.takes_off(held, on_ground) ==> on_ground,
{
}

/// A jump that was let go is not kept for later: after a tick without the
/// intent the jump is not charging, so the next tick cannot take off.
pub proof fn lemma_jump_not_queued(charge: JumpCharge, on_ground: bool, delta: u64)
    ensures
        charge.stepped(false, delta).elapsed is None,
        !charge.stepped(false, delta).takes_off(false, on_ground),
{
}

/// A full charge has level one, and a charge that has just begun level zero.
pub proof fn lemma_charge_levels(charge: JumpCharge)
    requires
        charge.wf(),
        charge.elapsed is Some,
    ensures
        charge.elapsed->Some_0 >= charge.max_charge_time ==> charge.level().num
            == charge.level().den,
        charge.elapsed->Some_0 == 0 ==> charge.level().num == 0,
        0 <= charge.level().num <= charge.level().den,
{
}

/// The forces by the state of the character. Idle on ground, it is held by
/// friction and nothing drives it. Moving on ground below its top speed, it
/// is driven by the ground acceleration and damped. In the air below its top
/// speed, it is driven by the air acceleration and never damped. At or above
/// its top speed nothing drives it.
pub proof fn lemma_forces(on_ground: bool, moving: bool, under_max_speed: bool)
    ensures
        state_of(on_ground, moving) == LocomotionState::GroundedIdle ==> forces(
            on_ground,
            moving,
            under_max_speed,
        ) == (ForcePlan { friction: Friction::Stopped, drive: Drive::Off, damping: false }),
        state_of(on_ground, moving) == LocomotionState::GroundedMoving && under_max_speed
            ==> forces(on_ground, moving, under_max_speed) == (ForcePlan {
            friction: Friction::Free,
            drive: Drive::Ground,
            damping: true,
        }),
        state_of(on_ground, moving) == LocomotionState::Airborne && moving && under_max_speed
            ==> forces(on_ground, moving, under_max_speed) == (ForcePlan {
            friction: Friction::Free,
            drive: Drive::Air,
            damping: false,
        }),
        state_of(on_ground, moving) == LocomotionState::Airborne ==> !forces(
            on_ground,
            moving,
            under_max_speed,
        ).damping,
        !under_max_speed || !moving ==> forces(on_ground, moving, under_max_speed).drive
            == Drive::Off && !forces(on_ground, moving, under_max_speed).damping,
        moving <==> forces(on_ground, moving, under_max_speed).friction == Friction::Free,
{
}

} // verus!
