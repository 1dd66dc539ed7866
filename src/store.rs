use crate::env::TimeMillis;
use vstd::prelude::*;

verus! {

/// What an item holds, as a mathematical value.
pub struct ItemModel {
    pub id: u32,
    pub name: Seq<char>,
    pub done: bool,
    pub date_added: TimeMillis,
}

/// One achievement record.
#[derive(Debug)]
pub struct AchievementItem {
    pub id: u32,
    pub name: String,
    pub done: bool,
    pub date_added: TimeMillis,
}

impl View for AchievementItem {
    type V = ItemModel;

    open spec fn view(&self) -> ItemModel {
        ItemModel { id: self.id, name: self.name@, done: self.done, date_added: self.date_added }
    }
}

impl Clone for AchievementItem {
    fn clone(&self) -> (r: Self)
        ensures
            r == *self,
    {
        AchievementItem {
            id: self.id,
            name: self.name.clone(),
            done: self.done,
            date_added: self.date_added,
        }
    }
}

/// The models of a sequence of items, in the same order.
pub open spec fn models(items: Seq<AchievementItem>) -> Seq<ItemModel> {
    items.map_values(|i: AchievementItem| i@)
}

/// The record store: the items in the order in which they were added.
#[derive(Debug)]
pub struct Achievement {
    pub items: Vec<AchievementItem>,
}

impl View for Achievement {
    type V = Seq<ItemModel>;

    open spec fn view(&self) -> Seq<ItemModel> {
        models(self.items@)
    }
}

impl Default for Achievement {
    fn default() -> (r: Self)
        ensures
            r@ == Seq::<ItemModel>::empty(),
    {
        let r = Achievement { items: Vec::new() };
        assert(r@ =~= Seq::<ItemModel>::empty());
        r
    }
}

impl Clone for Achievement {
    fn clone(&self) -> (r: Self)
        ensures
            r@ == self@,
    {
        let items = self.items.clone();
        assert(items@ =~= self.items@);
        Achievement { items }
    }
}

/// The store after one item is added with `name` at the clock reading
/// `date_added`: its id is the store's length before plus two, and it is not
/// done.
pub open spec fn with_added(
    items: Seq<ItemModel>,
    name: Seq<char>,
    date_added: TimeMillis,
) -> Seq<ItemModel>
    recommends
        items.len() + 2 <= u32::MAX,
{
    items.push(ItemModel { id: (items.len() + 2) as u32, name, done: false, date_added })
}

/// The store after the item at position `id` is marked done; unchanged where
/// there is no such position.
pub open spec fn with_marked_done(items: Seq<ItemModel>, id: int) -> Seq<ItemModel> {
    if 0 <= id < items.len() {
        items.update(
            id,
            ItemModel {
                id: items[id].id,
                name: items[id].name,
                done: true,
                date_added: items[id].date_added,
            },
        )
    } else {
        items
    }
}

impl Achievement {
    /// Appends an item named `name`, stamped `date_added`, and returns its id.
    pub fn push_item(&mut self, name: String, date_added: TimeMillis) -> (id: u32)
        requires
            old(self)@.len() + 2 <= u32::MAX,
        ensures
            final(self)@ == with_added(old(self)@, name@, date_added),
            id == old(self)@.len() + 2,
    {
        let id: u32 = self.items.len() as u32 + 2;
        self.items.push(AchievementItem { id, name, done: false, date_added });
        assert(self@ =~= with_added(old(self)@, name@, date_added));
        id
    }

    /// Marks the item at position `id` done; returns whether there is one.
    pub fn set_done(&mut self, id: u32) -> (found: bool)
        ensures
            found == (id < old(self)@.len()),
            final(self)@ == with_marked_done(old(self)@, id as int),
    {
        if (id as usize) < self.items.len() {
            let i: usize = id as usize;
            let mut item = self.items[i].clone();
            item.done = true;
            self.items.set(i, item);
            assert(self@ =~= with_marked_done(old(self)@, id as int));
            true
        } else {
            false
        }
    }
}

} // verus!
