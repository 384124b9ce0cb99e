use worker_pool::cache::Cacher;
use worker_pool::workout::{plan_workout, Workout};

#[test]
fn local_var() {
    let x = 4;
    let equal_to_x = |z| x == z;
    let y = 4;

    assert!(equal_to_x(y));
}

#[test]
fn closure_type() {
    let x = vec![1, 2, 3];
    let equal_to_x = move |z| x == z;

    let y = vec![1, 2, 3];
    assert!(equal_to_x(y));
}

#[test]
fn cacher_runs_the_calculation_once() {
    let calls = std::cell::Cell::new(0u32);
    let mut c = Cacher::new(|a: u32| {
        calls.set(calls.get() + 1);
        a * 2
    });
    assert_eq!(c.value(3), 6);
    assert_eq!(c.value(10), 6);
    assert_eq!(calls.get(), 1);
}

#[test]
fn workout_plans_use_the_calculation_once() {
    let calls = std::cell::Cell::new(0u32);
    let mut c = Cacher::new(|n: u32| {
        calls.set(calls.get() + 1);
        n
    });
    assert_eq!(
        plan_workout(10, 7, &mut c),
        Workout::Strength { pushups: 10, situps: 10 }
    );
    assert_eq!(calls.get(), 1);

    let mut c = Cacher::new(|n: u32| n + 1);
    assert_eq!(plan_workout(30, 3, &mut c), Workout::Rest);
    assert_eq!(plan_workout(30, 7, &mut c), Workout::Run { minutes: 31 });
    assert_eq!(plan_workout(40, 7, &mut c), Workout::Run { minutes: 31 });
}
