use worker::load::{apply_draw, draw_load, load_from_draw, LoadState, CAPACITY};

#[test]
fn load_starts_at_zero() {
    assert_eq!(LoadState::new().read(), 0);
}

#[test]
fn write_replaces_the_load_without_clamping() {
    let mut state = LoadState::new();
    state.write(57);
    assert_eq!(state.read(), 57);
    state.write(-12);
    assert_eq!(state.read(), -12);
    state.write(100_000);
    assert_eq!(state.read(), 100_000);
}

#[test]
fn capacity_is_one_hundred() {
    assert_eq!(CAPACITY, 100);
}

#[test]
fn draws_are_reduced_modulo_the_capacity() {
    assert_eq!(load_from_draw(0), 0);
    assert_eq!(load_from_draw(1), 1);
    assert_eq!(load_from_draw(99), 99);
    assert_eq!(load_from_draw(100), 0);
    assert_eq!(load_from_draw(12_345), 45);
    assert_eq!(load_from_draw(i32::MAX), 47);
}

#[test]
fn negative_draws_give_loads_that_are_not_negative() {
    assert_eq!(load_from_draw(-1), 99);
    assert_eq!(load_from_draw(-99), 1);
    assert_eq!(load_from_draw(-100), 0);
    assert_eq!(load_from_draw(-101), 99);
    assert_eq!(load_from_draw(i32::MIN), 52);
}

#[test]
fn reduction_agrees_with_the_euclidean_remainder() {
    let mut draw = i32::MIN;
    loop {
        assert_eq!(load_from_draw(draw), draw.rem_euclid(100));
        match draw.checked_add(9_999_991) {
            Some(next) => draw = next,
            None => break,
        }
    }
}

#[test]
fn random_loads_stay_in_range() {
    let mut seen = [false; 100];
    for _ in 0..20_000 {
        let load = draw_load();
        assert!((0..100).contains(&load));
        seen[load as usize] = true;
    }
    assert!(seen.iter().filter(|hit| **hit).count() > 90);
}

#[test]
fn tick_stores_the_load_of_its_draw() {
    let mut state = LoadState::new();
    assert_eq!(apply_draw(&mut state, 250), 50);
    assert_eq!(state.read(), 50);
    assert_eq!(apply_draw(&mut state, -1), 99);
    assert_eq!(state.read(), 99);
}

#[test]
fn read_after_each_tick_returns_that_ticks_value() {
    let draws = [17, -250, 99, 100, i32::MIN, 3, 3, 1_000_001];
    let expected = [17, 50, 99, 0, 52, 3, 3, 1];
    let mut state = LoadState::new();
    assert_eq!(state.read(), 0);
    for (draw, load) in draws.iter().zip(expected.iter()) {
        apply_draw(&mut state, *draw);
        assert_eq!(state.read(), *load);
        assert_eq!(state.read(), *load);
    }
}
