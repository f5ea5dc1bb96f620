use rust_tour::cacher::{generate_workout, Cacher, Workout};
use std::cell::Cell;

#[test]
fn call_with_different_values() {
    let mut c = Cacher::new(|a| a);

    let v1 = c.value(1);
    let v2 = c.value(2);

    assert_eq!(v1, v1);
    assert_eq!(v2, 2);
}

#[test]
fn the_calculation_is_made_once_for_each_argument() {
    let calls = Cell::new(0);
    let mut c = Cacher::new(|a| {
        calls.set(calls.get() + 1);
        a * 2
    });
    assert_eq!(c.value(3), 6);
    assert_eq!(c.value(3), 6);
    assert_eq!(calls.get(), 1);
    assert_eq!(c.value(4), 8);
    assert_eq!(c.value(3), 6);
    assert_eq!(c.value(4), 8);
    assert_eq!(calls.get(), 2);
}

#[test]
fn a_light_day_is_one_of_pushups_and_situps() {
    let calls = Cell::new(0);
    let plan = generate_workout(10, 7, |n| {
        calls.set(calls.get() + 1);
        n
    });
    assert_eq!(
        plan,
        Workout::PushupsAndSitups {
            pushups: 10,
            situps: 10
        }
    );
    assert_eq!(calls.get(), 1);
    assert_eq!(
        generate_workout(24, 3, |n| n + 1),
        Workout::PushupsAndSitups {
            pushups: 25,
            situps: 25
        }
    );
}

#[test]
fn a_hard_day_is_a_run_or_a_break() {
    let calls = Cell::new(0);
    assert_eq!(
        generate_workout(25, 3, |n| {
            calls.set(calls.get() + 1);
            n
        }),
        Workout::Break
    );
    assert_eq!(calls.get(), 0);
    assert_eq!(
        generate_workout(25, 4, |n| n),
        Workout::Run { minutes: 25 }
    );
    assert_eq!(
        generate_workout(90, 7, |n| n / 2),
        Workout::Run { minutes: 45 }
    );
}
