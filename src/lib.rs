//! A store of achievement records: items are added with a name and the time
//! read from a clock, listed in the order they were added, and marked done.
//! The store half of the runtime state is handed over across a restart.
pub mod env;
pub mod laws;
pub mod store;

use crate::env::{CanisterEnvironment, Clock, EmptyEnvironment, Environment, TimeMillis};
use crate::store::{models, Achievement, AchievementItem, ItemModel};
use vstd::prelude::*;

verus! {

/// The clock and the record store that every operation works on.
pub struct RuntimeState {
    pub env: Clock,
    pub data: Achievement,
}

impl Default for RuntimeState {
    /// The state before initialisation: the zero clock and an empty store.
    fn default() -> (r: Self)
        ensures
            r.env == Clock::Empty(EmptyEnvironment {}),
            r.data@ == Seq::<ItemModel>::empty(),
    {
        RuntimeState { env: Clock::Empty(EmptyEnvironment {}), data: Achievement::default() }
    }
}

/// How the store changes when one item named `name` is added under a clock
/// whose fixed reading, if it has one, is `pinned`: one item is appended, with
/// id the old length plus two (which fits in a `u32`), not done, and stamped
/// with the clock's reading.
pub open spec fn adds_item(
    before: Seq<ItemModel>,
    after: Seq<ItemModel>,
    name: Seq<char>,
    pinned: Option<TimeMillis>,
) -> bool {
    &&& before.len() + 2 <= u32::MAX
    &&& after == crate::store::with_added(before, name, after.last().date_added)
    &&& pinned is Some ==> pinned == Some(after.last().date_added)
}

/// Adds an item named `name`, stamped with the state's clock, and returns its id.
pub fn add_impl(name: String, runtime_state: &mut RuntimeState) -> (id: u32)
    requires
        old(runtime_state).data@.len() + 2 <= u32::MAX,
    ensures
        final(runtime_state).env == old(runtime_state).env,
        adds_item(
            old(runtime_state).data@,
            final(runtime_state).data@,
            name@,
            old(runtime_state).env.pinned_time(),
        ),
        id == old(runtime_state).data@.len() + 2,
{
    let current_time = runtime_state.env.now();
    runtime_state.data.push_item(name, current_time)
}

/// A copy of every item, in the order in which they were added.
pub fn get_impl(runtime_state: &RuntimeState) -> (items: Vec<AchievementItem>)
    ensures
        models(items@) == runtime_state.data@,
{
    let items = runtime_state.data.items.clone();
    assert(items@ =~= runtime_state.data.items@);
    items
}

/// Marks done the item at position `id` of the store (positions count from
/// zero, while ids count from two). Returns false, and changes nothing, where
/// the store holds no such position.
pub fn mark_done_impl(id: u32, runtime_state: &mut RuntimeState) -> (found: bool)
    ensures
        found == (id < old(runtime_state).data@.len()),
        final(runtime_state).data@ == crate::store::with_marked_done(
            old(runtime_state).data@,
            id as int,
        ),
        id >= old(runtime_state).data@.len() ==> final(runtime_state).data@ == old(
            runtime_state,
        ).data@,
        final(runtime_state).env == old(runtime_state).env,
{
    runtime_state.data.set_done(id)
}

/// The state right after the first start: the live clock and an empty store.
pub fn init_state() -> (r: RuntimeState)
    ensures
        r.env == Clock::Live(CanisterEnvironment {}),
        r.data@ == Seq::<ItemModel>::empty(),
{
    RuntimeState { env: Clock::Live(CanisterEnvironment::new()), data: Achievement::default() }
}

/// What is kept across a restart: a copy of the store, without the clock.
pub fn save_state(runtime_state: &RuntimeState) -> (saved: Achievement)
    ensures
        saved@ == runtime_state.data@,
{
    runtime_state.data.clone()
}

/// The state after a restart: a fresh live clock and the store that was kept.
pub fn restore_state(saved: Achievement) -> (r: RuntimeState)
    ensures
        r.env == Clock::Live(CanisterEnvironment {}),
        r.data@ == saved@,
{
    RuntimeState { env: Clock::Live(CanisterEnvironment::new()), data: saved }
}

} // verus!
