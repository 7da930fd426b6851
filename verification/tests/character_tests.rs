use bevy::prelude::{
    App, Entity, HierarchyPlugin, MinimalPlugins, Quat, Transform, TransformBundle,
    TransformPlugin, Vec3,
};
use bevy_rapier3d::prelude::{
    Collider, NoUserData, QueryFilter, RapierContext, RapierPhysicsPlugin, RigidBody,
};
use endless_sea::combat::{attack, blow, targets, Aim, AttackPlan, AttackState, SWEEP_COLUMNS, SWEEP_ROWS};
use endless_sea::inventory::Inventory;
use endless_sea::item::{HeldItem, Item};
use endless_sea::ratio::Ratio;

const MILLI: u64 = 1_000_000;
const TEST_FPS: f32 = 144.0;

fn holding(item: Item) -> Inventory {
    Inventory {
        hand: Some(HeldItem::new(item)),
        ..Inventory::default()
    }
}

fn radians(half_turns: Ratio) -> f32 {
    std::f32::consts::PI * half_turns.num as f32 / half_turns.den as f32
}

fn as_float(ratio: Ratio) -> f32 {
    ratio.num as f32 / ratio.den as f32
}

/// Whether a ray from the origin towards +X, turned by `aim`, meets a cube
/// of half side 0.5 around `centre` within `reach`.
fn ray_meets_cube(aim: &Aim, centre: [f32; 3], reach: f32) -> bool {
    let yaw = radians(aim.yaw);
    let pitch = radians(aim.pitch);
    // The looking direction +X, turned about the right axis and then about
    // the up axis.
    let direction = [pitch.cos() * yaw.cos(), pitch.sin(), -pitch.cos() * yaw.sin()];
    let mut near = 0.0f32;
    let mut far = reach;
    for axis in 0..3 {
        let low = centre[axis] - 0.5;
        let high = centre[axis] + 0.5;
        if direction[axis].abs() < 1e-6 {
            if low > 0.0 || high < 0.0 {
                return false;
            }
        } else {
            let t1 = low / direction[axis];
            let t2 = high / direction[axis];
            near = near.max(t1.min(t2));
            far = far.min(t1.max(t2));
        }
    }
    near <= far
}

/// The direction of a ray: the looking direction turned about the right
/// axis, then about the up axis.
fn ray_direction(aim: &Aim, transform: &Transform, looking_direction: Vec3) -> Vec3 {
    Quat::from_axis_angle(transform.up(), radians(aim.yaw))
        * Quat::from_axis_angle(transform.right(), radians(aim.pitch))
        * looking_direction.normalize_or_zero()
}

#[test]
fn sword_attack() {
    let mut app = App::new();
    app.add_plugins((
        MinimalPlugins,
        TransformPlugin,
        HierarchyPlugin,
        RapierPhysicsPlugin::<NoUserData>::default(),
    ));
    let character_at = Transform::from_xyz(0.0, 0.0, 0.0);
    let character_id = app
        .world
        .spawn((
            RigidBody::Fixed,
            Collider::capsule(Vec3::new(0.0, 0.5, 0.0), Vec3::new(0.0, 1.5, 0.0), 0.4),
            TransformBundle::from(character_at),
        ))
        .id();
    let object_id = app
        .world
        .spawn((
            RigidBody::Fixed,
            Collider::cuboid(0.5, 0.5, 0.5),
            TransformBundle::from(Transform::from_xyz(1.5, 0.001, 0.0)),
        ))
        .id();
    let bystander_id = app
        .world
        .spawn((
            RigidBody::Fixed,
            Collider::cuboid(0.5, 0.5, 0.5),
            TransformBundle::from(Transform::from_xyz(-1.5, 0.001, 0.0)),
        ))
        .id();

    let mut inventory = holding(Item::Sword);
    let intent = Some(AttackState::Primary);
    let looking_direction = Vec3::X;
    let max_health = 1.0f64;
    let mut health = max_health;
    let mut bystander_health = max_health;

    let frames = (Item::Sword.cooldown() as f32 / 1e9 * TEST_FPS).ceil() as u64 + 5;
    let delta = (1e9 / TEST_FPS as f64) as u64;
    let mut swings = 0;
    for _ in 0..frames {
        app.update();
        let plan = attack(&mut inventory, intent);
        if plan != AttackPlan::Idle {
            swings += 1;
            assert_eq!(plan, AttackPlan::Sweep);
            let reach = as_float(plan.reach());
            let rapier_context = app.world.resource::<RapierContext>();
            let hits: Vec<Option<u64>> = plan
                .aims()
                .iter()
                .map(|aim| {
                    rapier_context
                        .cast_ray(
                            character_at.translation,
                            ray_direction(aim, &character_at, looking_direction),
                            reach,
                            true,
                            QueryFilter {
                                exclude_collider: Some(character_id),
                                ..QueryFilter::default()
                            },
                        )
                        .map(|(entity, _toi)| entity.to_bits())
                })
                .collect();
            assert!(hits.iter().filter(|hit| hit.is_some()).count() > 1);
            let struck = targets(&hits);
            assert_eq!(struck, vec![object_id.to_bits()]);
            for entity in struck {
                let effect = blow();
                let damage = effect.damage.num as f64 / effect.damage.den as f64;
                if Entity::from_bits(entity) == object_id {
                    health -= damage;
                } else if Entity::from_bits(entity) == bystander_id {
                    bystander_health -= damage;
                }
            }
        }
        inventory.tick(delta);
    }
    assert_eq!(swings, 2);
    assert!(health < max_health, "object should have taken damage");
    assert_eq!(health, 0.0);
    assert_eq!(bystander_health, max_health);
}

#[test]
fn sword_sweep_meets_a_target_ahead() {
    let mut inventory = holding(Item::Sword);
    let intent = Some(AttackState::Primary);
    let obstacle: u64 = 2;
    let obstacle_at = [1.5f32, 0.001, 0.0];
    let max_health = 1.0f64;
    let mut health = max_health;

    let frames = (Item::Sword.cooldown() as f32 / 1e9 * TEST_FPS).ceil() as u64 + 5;
    let delta = (1e9 / TEST_FPS as f64) as u64;
    let mut swings = 0;
    for frame in 0..frames {
        let plan = attack(&mut inventory, intent);
        if plan != AttackPlan::Idle {
            swings += 1;
            assert_eq!(plan, AttackPlan::Sweep);
            let reach = as_float(plan.reach());
            // The physics engine knows no collider in the first frame.
            let hits: Vec<Option<u64>> = plan
                .aims()
                .iter()
                .map(|aim| {
                    if frame > 0 && ray_meets_cube(aim, obstacle_at, reach) {
                        Some(obstacle)
                    } else {
                        None
                    }
                })
                .collect();
            for entity in targets(&hits) {
                assert_eq!(entity, obstacle);
                let effect = blow();
                health -= effect.damage.num as f64 / effect.damage.den as f64;
            }
        }
        inventory.tick(delta);
    }
    assert_eq!(swings, 2);
    assert!(health < max_health, "object should have taken damage");
    assert_eq!(health, 0.5);
}

#[test]
fn attack_needs_an_item_and_an_intent() {
    let mut empty = Inventory::new();
    assert_eq!(attack(&mut empty, Some(AttackState::Primary)), AttackPlan::Idle);
    assert_eq!(empty, Inventory::new());

    let mut armed = holding(Item::Gun);
    assert_eq!(attack(&mut armed, None), AttackPlan::Idle);
    assert_eq!(armed, holding(Item::Gun));

    let mut belted = Inventory {
        hand: None,
        belt: Some(HeldItem::new(Item::Gun)),
        backpack: vec![HeldItem::new(Item::Sword)],
    };
    let before = belted.clone();
    assert_eq!(attack(&mut belted, Some(AttackState::Primary)), AttackPlan::Idle);
    assert_eq!(belted, before);
}

#[test]
fn attack_plans_by_item_and_intent() {
    let mut gun = holding(Item::Gun);
    assert_eq!(attack(&mut gun, Some(AttackState::Primary)), AttackPlan::Shot);
    let mut sword = holding(Item::Sword);
    assert_eq!(attack(&mut sword, Some(AttackState::Primary)), AttackPlan::Sweep);
    let mut gun = holding(Item::Gun);
    assert_eq!(attack(&mut gun, Some(AttackState::Secondary)), AttackPlan::Idle);
    let mut sword = holding(Item::Sword);
    assert_eq!(attack(&mut sword, Some(AttackState::Secondary)), AttackPlan::Idle);
}

#[test]
fn attack_starts_the_cooldown_of_the_item_in_hand_only() {
    let mut inventory = Inventory {
        hand: Some(HeldItem::new(Item::Gun)),
        belt: Some(HeldItem::new(Item::Sword)),
        backpack: vec![HeldItem::new(Item::Gun)],
    };
    assert_eq!(attack(&mut inventory, Some(AttackState::Primary)), AttackPlan::Shot);
    assert_eq!(
        inventory.hand,
        Some(HeldItem {
            item: Item::Gun,
            time_since_last_use: Some(0)
        })
    );
    assert_eq!(inventory.belt, Some(HeldItem::new(Item::Sword)));
    assert_eq!(inventory.backpack, vec![HeldItem::new(Item::Gun)]);

    // A secondary attack uses the item too, though it casts nothing.
    let mut sword = holding(Item::Sword);
    assert_eq!(attack(&mut sword, Some(AttackState::Secondary)), AttackPlan::Idle);
    assert_eq!(
        sword.hand,
        Some(HeldItem {
            item: Item::Sword,
            time_since_last_use: Some(0)
        })
    );
}

#[test]
fn second_attack_within_the_cooldown_does_nothing() {
    let mut inventory = holding(Item::Gun);
    assert_eq!(attack(&mut inventory, Some(AttackState::Primary)), AttackPlan::Shot);
    assert_eq!(attack(&mut inventory, Some(AttackState::Primary)), AttackPlan::Idle);

    inventory.tick(400 * MILLI);
    inventory.tick(599 * MILLI);
    let waiting = inventory.clone();
    assert_eq!(attack(&mut inventory, Some(AttackState::Primary)), AttackPlan::Idle);
    assert_eq!(inventory, waiting);

    inventory.tick(MILLI - 1);
    assert_eq!(attack(&mut inventory, Some(AttackState::Primary)), AttackPlan::Idle);
    inventory.tick(1);
    assert_eq!(attack(&mut inventory, Some(AttackState::Primary)), AttackPlan::Shot);
    assert_eq!(attack(&mut inventory, Some(AttackState::Primary)), AttackPlan::Idle);
}

#[test]
fn cooldown_runs_on_while_the_item_is_on_the_belt() {
    let mut inventory = holding(Item::Sword);
    assert_eq!(attack(&mut inventory, Some(AttackState::Primary)), AttackPlan::Sweep);
    inventory.switch_hands();
    assert_eq!(attack(&mut inventory, Some(AttackState::Primary)), AttackPlan::Idle);
    inventory.tick(200 * MILLI);
    inventory.switch_hands();
    assert_eq!(attack(&mut inventory, Some(AttackState::Primary)), AttackPlan::Sweep);
}

#[test]
fn shot_casts_one_ray_straight_ahead() {
    let aims = AttackPlan::Shot.aims();
    assert_eq!(aims.len(), 1);
    assert_eq!(aims[0].yaw.num, 0);
    assert_eq!(aims[0].pitch.num, 0);
    assert!(aims[0].yaw.den > 0 && aims[0].pitch.den > 0);
    assert_eq!(AttackPlan::Shot.reach(), Ratio { num: 1000, den: 1 });
}

#[test]
fn idle_casts_nothing() {
    assert!(AttackPlan::Idle.aims().is_empty());
    assert_eq!(AttackPlan::Idle.reach().num, 0);
}

#[test]
fn sweep_casts_a_fan_of_rays() {
    assert_eq!(SWEEP_COLUMNS, 31);
    assert_eq!(SWEEP_ROWS, 3);
    let aims = AttackPlan::Sweep.aims();
    assert_eq!(aims.len(), 93);
    assert_eq!(AttackPlan::Sweep.reach(), Ratio { num: 5, den: 2 });
    assert_eq!(as_float(AttackPlan::Sweep.reach()), 2.5);

    assert_eq!(
        aims[0],
        Aim {
            yaw: Ratio { num: -15, den: 60 },
            pitch: Ratio { num: -1, den: 10 }
        }
    );
    assert_eq!(
        aims[1],
        Aim {
            yaw: Ratio { num: -15, den: 60 },
            pitch: Ratio { num: 0, den: 10 }
        }
    );
    assert_eq!(
        aims[3],
        Aim {
            yaw: Ratio { num: -14, den: 60 },
            pitch: Ratio { num: -1, den: 10 }
        }
    );
    assert_eq!(
        aims[46],
        Aim {
            yaw: Ratio { num: 0, den: 60 },
            pitch: Ratio { num: 0, den: 10 }
        }
    );
    assert_eq!(
        aims[92],
        Aim {
            yaw: Ratio { num: 15, den: 60 },
            pitch: Ratio { num: 1, den: 10 }
        }
    );

    let lerp = |a: f32, b: f32, t: f32| a + (b - a) * t;
    let half_width = 0.25 * std::f32::consts::PI;
    let half_height = 0.1 * std::f32::consts::PI;
    for (k, aim) in aims.iter().enumerate() {
        let column = (k / 3) as f32;
        let row = (k % 3) as f32;
        let yaw = lerp(-half_width, half_width, column / 30.0);
        let pitch = lerp(-half_height, half_height, row / 2.0);
        assert!((radians(aim.yaw) - yaw).abs() < 1e-5);
        assert!((radians(aim.pitch) - pitch).abs() < 1e-5);
    }
}

#[test]
fn targets_are_struck_once_each() {
    let hits = vec![
        None,
        Some(5),
        Some(5),
        None,
        Some(2),
        Some(5),
        Some(9),
        Some(2),
        None,
    ];
    assert_eq!(targets(&hits), vec![5, 2, 9]);
    assert!(targets(&Vec::new()).is_empty());
    assert!(targets(&vec![None, None]).is_empty());
    assert_eq!(targets(&vec![Some(u64::MAX), Some(0), Some(u64::MAX)]), vec![u64::MAX, 0]);
}

#[test]
fn blow_takes_half_a_point_and_pushes_with_ten() {
    let effect = blow();
    assert_eq!(effect.damage, Ratio { num: 1, den: 2 });
    assert_eq!(effect.knockback, Ratio { num: 10, den: 1 });
    assert_eq!(as_float(effect.damage), 0.5);
    assert_eq!(as_float(effect.knockback), 10.0);
}

#[test]
fn ratios() {
    assert_eq!(Ratio::new(5, 2), Ratio { num: 5, den: 2 });
    assert_eq!(Ratio::new(-3, 7), Ratio { num: -3, den: 7 });
    assert_eq!(Ratio::whole(-4), Ratio { num: -4, den: 1 });
}
