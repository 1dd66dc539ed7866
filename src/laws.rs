use crate::env::TimeMillis;
use crate::store::{with_added, with_marked_done, ItemModel};
use crate::{adds_item, RuntimeState};
use crate::store::Achievement;
use vstd::prelude::*;

verus! {

/// Starting from an empty store, after any sequence of adds the store (and so
/// the list that `get_impl` returns) holds exactly one item per add, and the
/// item at position `j` has id `j + 2`.
///
/// `stores[k]` is the store after the first `k` adds; the `k`-th add is of
/// `names[k]` under a clock whose fixed reading, if any, is `clocks[k]`.
pub proof fn lemma_list_counts_adds(
    stores: Seq<Seq<ItemModel>>,
    names: Seq<Seq<char>>,
    clocks: Seq<Option<TimeMillis>>,
)
    requires
        stores.len() == names.len() + 1,
        clocks.len() == names.len(),
        stores[0].len() == 0,
        forall|k: int|
            0 <= k < names.len() ==> #[trigger] adds_item(
                stores[k],
                stores[k + 1],
                names[k],
                clocks[k],
            ),
    ensures
        stores.last().len() == names.len(),
        forall|j: int| 0 <= j < names.len() ==> #[trigger] stores.last()[j].id == j + 2,
    decreases names.len(),
{
    if names.len() > 0 {
        let n = (names.len() - 1) as int;
        assert(adds_item(stores[n], stores[n + 1], names[n], clocks[n]));
        let prev = stores.drop_last();
        assert(prev.last() == stores[n]);
        assert(prev.len() == names.drop_last().len() + 1);
        assert forall|k: int| 0 <= k < names.drop_last().len() implies #[trigger] adds_item(
            prev[k],
            prev[k + 1],
            names.drop_last()[k],
            clocks.drop_last()[k],
        ) by {
            assert(adds_item(stores[k], stores[k + 1], names[k], clocks[k]));
        }
        lemma_list_counts_adds(prev, names.drop_last(), clocks.drop_last());
        assert forall|j: int| 0 <= j < names.len() implies #[trigger] stores.last()[j].id == j
            + 2 by {
            if j < n {
                assert(stores.last()[j] == stores[n][j]);
                assert(prev.last()[j].id == j + 2);
            }
        }
    }
}

/// On an empty store, an add of `name` under a clock that reads `t` and then a
/// listing give exactly one item: id two, named `name`, not done, stamped `t`.
pub proof fn lemma_add_then_list(
    before: Seq<ItemModel>,
    after: Seq<ItemModel>,
    listed: Seq<ItemModel>,
    name: Seq<char>,
    t: TimeMillis,
)
    requires
        before.len() == 0,
        adds_item(before, after, name, Some(t)),
        listed == after,
    ensures
        listed.len() == 1,
        listed[0].id == 2,
        listed[0].name == name,
        !listed[0].done,
        listed[0].date_added == t,
{
}

/// On an empty store, appending an item named `name` with whatever reading
/// `t` the clock gave during the add, and then a listing, give exactly one
/// item: id two, named `name`, not done, stamped `t`.
pub proof fn lemma_stamp_then_list(
    before: Seq<ItemModel>,
    after: Seq<ItemModel>,
    listed: Seq<ItemModel>,
    name: Seq<char>,
    t: TimeMillis,
)
    requires
        before.len() == 0,
        after == with_added(before, name, t),
        listed == after,
    ensures
        listed.len() == 1,
        listed[0].id == 2,
        listed[0].name == name,
        !listed[0].done,
        listed[0].date_added == t,
{
}

/// A store saved from a state and restored into a fresh one lists the same
/// items, in the same order, with the same fields.
pub proof fn lemma_save_restore(state: RuntimeState, saved: Achievement, restored: RuntimeState)
    requires
        saved@ == state.data@,
        restored.data@ == saved@,
    ensures
        restored.data@ == state.data@,
{
}

/// Marking the same present item done twice leaves it done, and the second
/// time changes nothing.
pub proof fn lemma_mark_done_idempotent(items: Seq<ItemModel>, id: int)
    requires
        0 <= id < items.len(),
    ensures
        with_marked_done(items, id)[id].done,
        with_marked_done(with_marked_done(items, id), id) == with_marked_done(items, id),
{
    assert(with_marked_done(with_marked_done(items, id), id) =~= with_marked_done(items, id));
}

} // verus!
