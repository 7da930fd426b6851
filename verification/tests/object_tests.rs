use endless_sea::object::{Lifetime, DEBRIS_LIFETIME, NANOS_PER_MILLI};
use endless_sea::ratio::Ratio;
use endless_sea::scenarios::all_tests;

const SECOND: u64 = 1_000_000_000;

#[test]
fn debris_lives_ten_seconds() {
    assert_eq!(DEBRIS_LIFETIME, 10 * SECOND);
    assert_eq!(NANOS_PER_MILLI, 1_000_000);
    assert_eq!(
        Lifetime::debris(true),
        Lifetime {
            total: 10 * SECOND,
            elapsed: 0,
            shrink_away: true
        }
    );
    assert_eq!(Lifetime::debris(false), Lifetime::new(10 * SECOND, false));
}

#[test]
fn lifetime_counts_down_to_its_end() {
    let mut life = Lifetime::new(3 * SECOND, false);
    assert!(!life.count_down(SECOND));
    assert_eq!(life.elapsed, SECOND);
    assert!(!life.count_down(2 * SECOND - 1));
    assert_eq!(life.elapsed, 3 * SECOND - 1);
    assert!(life.count_down(1));
    assert_eq!(life.elapsed, 3 * SECOND);
    assert!(life.count_down(SECOND));
    assert_eq!(life.elapsed, 3 * SECOND);
    assert!(life.count_down(0));

    let mut long = Lifetime::new(u64::MAX, false);
    assert!(!long.count_down(u64::MAX - 1));
    assert!(long.count_down(u64::MAX));
    assert_eq!(long.elapsed, u64::MAX);

    let mut none = Lifetime::new(0, true);
    assert!(none.count_down(0));
    assert_eq!(none.shrink(), None);
}

#[test]
fn shrinking_follows_the_share_of_life_left() {
    let mut life = Lifetime::debris(true);
    assert_eq!(
        life.shrink(),
        Some(Ratio {
            num: 10_000,
            den: 10_000
        })
    );
    life.count_down(7500 * NANOS_PER_MILLI);
    let share = life.shrink().unwrap();
    assert_eq!(
        share,
        Ratio {
            num: 2_500,
            den: 10_000
        }
    );
    let scale = (share.num as f32 / share.den as f32).powf(0.5);
    assert_eq!(scale, 0.5);

    // Parts of a millisecond do not count.
    life.count_down(NANOS_PER_MILLI / 2);
    assert_eq!(life.shrink().unwrap().num, 2_500);
    life.count_down(NANOS_PER_MILLI / 2);
    assert_eq!(life.shrink().unwrap().num, 2_499);

    life.count_down(2_499 * NANOS_PER_MILLI - 1);
    assert_eq!(life.shrink().unwrap().num, 1);
    assert!(life.count_down(1));
    assert_eq!(life.shrink(), None);
}

#[test]
fn only_objects_that_shrink_away_shrink() {
    let mut life = Lifetime::debris(false);
    assert_eq!(life.shrink(), None);
    life.count_down(9 * SECOND);
    assert_eq!(life.shrink(), None);
}

#[test]
fn scenarios_by_name() {
    assert_eq!(
        all_tests(),
        vec![
            "flat_gen",
            "simplex_gen",
            "scale_gen",
            "lump_gen",
            "terrace_gen",
            "complex_gen",
            "character_moves_horizontally",
            "character_doesnt_move_vertically",
            "create_world",
            "character_dies",
            "sword_attack",
        ]
    );
}
