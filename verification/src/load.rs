//! The load value a node reports, and how a new one is drawn.
//!
//! The value is written by the load simulator alone and read by everyone
//! else. This module holds the value and its rules; whoever shares it
//! between tasks puts it behind a lock and holds the lock for one `read` or
//! one `write` at a time.

use crate::random::random_i32;
use vstd::prelude::*;

verus! {

/// The fixed capacity of a node. Loads are drawn from `0` up to, but not
/// including, the capacity.
pub const CAPACITY: i32 = 100;

/// The current reported load of a node.
#[derive(Clone, Copy, Debug, PartialEq, Eq)]
pub struct LoadState {
    value: i32,
}

impl View for LoadState {
    type V = i32;

    closed spec fn view(&self) -> i32 {
        self.value
    }
}

impl LoadState {
    /// The state of a node that has not drawn a load yet: 0.
    pub fn new() -> (state: LoadState)
        ensures
            state@ == 0,
    {
        LoadState { value: 0 }
    }

    /// The current load.
    pub fn read(&self) -> (load: i32)
        ensures
            load == self@,
    {
        self.value
    }

    /// Replaces the current load. Any value is taken as it is: keeping it
    /// in range is the writer's business.
    pub fn write(&mut self, load: i32)
        ensures
            final(self)@ == load,
    {
        self.value = load;
    }
}

/// The load that a raw random draw stands for: its remainder modulo the
/// capacity, taken so that it is never negative. A negative draw is not
/// clamped to 0 but wraps into the range like any other: -1 stands for 99.
pub open spec fn load_of_draw(draw: i32) -> int {
    (draw as int) % (CAPACITY as int)
}

/// The load a node shows after one tick of the simulator with the given
/// draw: the load that the draw stands for, whatever the load was before.
pub open spec fn load_after_tick(previous: i32, draw: i32) -> i32 {
    load_of_draw(draw) as i32
}

/// The load a node shows after the ticks with the given draws, in order,
/// starting from `initial`.
pub open spec fn load_after(initial: i32, draws: Seq<i32>) -> i32
    decreases draws.len(),
{
    if draws.len() == 0 {
        initial
    } else {
        load_after_tick(load_after(initial, draws.drop_last()), draws.last())
    }
}

/// Reduces a raw random draw to a load within `0..CAPACITY`.
pub fn load_from_draw(draw: i32) -> (load: i32)
    ensures
        load == load_of_draw(draw),
        0 <= load < CAPACITY,
{
    let remainder = draw % CAPACITY;
    if remainder < 0 {
        remainder + CAPACITY
    } else {
        remainder
    }
}

/// Draws a new synthetic load. Which one is left to chance; it lies within
/// `0..CAPACITY`.
pub fn draw_load() -> (load: i32)
    ensures
        0 <= load < CAPACITY,
{
    load_from_draw(random_i32())
}

/// One tick of the load simulator with the given raw draw: the load that
/// the draw stands for replaces the current one. Returns the new load.
pub fn apply_draw(state: &mut LoadState, draw: i32) -> (load: i32)
    ensures
        final(state)@ == load_after_tick(old(state)@, draw),
        load == final(state)@,
        0 <= load < CAPACITY,
{
    let load = load_from_draw(draw);
    state.write(load);
    load
}

/// A read made after tick `i` and before tick `i + 1` returns exactly the
/// value produced at tick `i`, whatever was drawn before and wherever the
/// state started.
pub proof fn lemma_read_returns_latest_tick(initial: i32, draws: Seq<i32>, i: int)
    requires
        0 <= i < draws.len(),
    ensures
        load_after(initial, draws.take(i + 1)) == load_of_draw(draws[i]),
        0 <= load_after(initial, draws.take(i + 1)) < CAPACITY,
{
    assert(draws.take(i + 1).last() == draws[i]);
}

/// Before the first tick a read returns the initial value.
pub proof fn lemma_read_before_first_tick(initial: i32, draws: Seq<i32>)
    ensures
        load_after(initial, draws.take(0)) == initial,
{
}

/// A node that starts at load 0 never shows a load outside `0..CAPACITY`,
/// however many ticks have passed.
pub proof fn lemma_load_stays_in_range(draws: Seq<i32>)
    ensures
        0 <= load_after(0, draws) < CAPACITY,
{
}

} // verus!
