//! The list of symbols that a search yields, kept as a list model: each edit
//! answers with the change notification that its observers are sent.

use vstd::prelude::*;

verus! {

/// A change notification of a list model: at `position`, `removed` items
/// went away and `added` items took their place.
#[derive(Debug, Clone, Copy, PartialEq, Eq, Structural)]
pub struct ItemsChanged {
    pub position: u32,
    pub removed: u32,
    pub added: u32,
}

impl ItemsChanged {
    /// The notification describes exactly how `old` became `new`: the items
    /// before `position` stay, `removed` items there are replaced by `added`
    /// new ones, and the items after them stay in order.
    pub open spec fn describes<T>(self, old: Seq<T>, new: Seq<T>) -> bool {
        &&& self.position + self.removed <= old.len()
        &&& new.len() == old.len() - self.removed + self.added
        &&& new.take(self.position as int) == old.take(self.position as int)
        &&& new.skip(self.position + self.added) == old.skip(self.position + self.removed)
    }
}

/// The list of symbols behind the search results, in the order of the
/// results.
pub struct YahooFinanceModel<T> {
    symbols: Vec<T>,
}

impl<T> View for YahooFinanceModel<T> {
    type V = Seq<T>;

    closed spec fn view(&self) -> Seq<T> {
        self.symbols@
    }
}

impl<T> YahooFinanceModel<T> {
    /// The item at `position` as the list model hands it out, if any.
    pub open spec fn item_at(self, position: u32) -> Option<T> {
        if position < self@.len() {
            Some(self@[position as int])
        } else {
            None
        }
    }

    /// An empty model.
    pub fn new() -> (r: Self)
        ensures
            r@ == Seq::<T>::empty(),
    {
        YahooFinanceModel { symbols: Vec::new() }
    }

    /// The number of items, as the `u32` of a list model.
    pub fn n_items(&self) -> (r: u32)
        ensures
            r == self@.len() as u32,
    {
        self.symbols.len() as u32
    }

    /// The item at `position`, or `None` past the end.
    pub fn item(&self, position: u32) -> (r: Option<&T>)
        ensures
            r matches Some(x) ==> self.item_at(position) == Some(*x),
            r is None ==> self.item_at(position) is None,
    {
        let i = position as usize;
        if i < self.symbols.len() {
            Some(&self.symbols[i])
        } else {
            None
        }
    }

    /// The item shown by the list row at `row_index`. The index is taken as
    /// a position the way `as u32` converts it, so a row that is in no list
    /// (index -1) finds nothing in any model of fewer than 2^32 - 1 items.
    pub fn item_for_row(&self, row_index: i32) -> (r: Option<&T>)
        ensures
            r matches Some(x) ==> self.item_at(row_index as u32) == Some(*x),
            r is None ==> self.item_at(row_index as u32) is None,
    {
        self.item(row_index as u32)
    }

    /// Removes every item.
    pub fn clear(&mut self) -> (r: ItemsChanged)
        ensures
            final(self)@ == Seq::<T>::empty(),
            r == (ItemsChanged { position: 0, removed: old(self)@.len() as u32, added: 0 }),
            old(self)@.len() <= u32::MAX ==> r.describes(old(self)@, final(self)@),
    {
        let size = self.symbols.len();
        self.symbols.clear();
        let r = ItemsChanged { position: 0, removed: size as u32, added: 0 };
        proof {
            if old(self)@.len() <= u32::MAX {
                assert(final(self)@.take(0) =~= old(self)@.take(0));
                assert(final(self)@.skip(0) =~= old(self)@.skip(old(self)@.len() as int));
            }
        }
        r
    }

    /// Adds an item at the end.
    pub fn append(&mut self, item: T) -> (r: ItemsChanged)
        ensures
            final(self)@ == old(self)@.push(item),
            r == (ItemsChanged { position: old(self)@.len() as u32, removed: 0, added: 1 }),
            old(self)@.len() <= u32::MAX ==> r.describes(old(self)@, final(self)@),
    {
        self.symbols.push(item);
        let index = self.symbols.len() - 1;
        let r = ItemsChanged { position: index as u32, removed: 0, added: 1 };
        proof {
            if old(self)@.len() <= u32::MAX {
                assert(r.position == old(self)@.len());
                assert(final(self)@.take(r.position as int) =~= old(self)@);
                assert(old(self)@.take(r.position as int) =~= old(self)@);
                assert(final(self)@.skip(r.position + 1) =~= old(self)@.skip(
                    r.position as int,
                ));
            }
        }
        r
    }

    /// Removes the item at `index`; the items after it move up by one.
    pub fn remove(&mut self, index: u32) -> (r: ItemsChanged)
        requires
            index < old(self)@.len(),
        ensures
            final(self)@ == old(self)@.remove(index as int),
            r == (ItemsChanged { position: index, removed: 1, added: 0 }),
            r.describes(old(self)@, final(self)@),
    {
        self.symbols.remove(index as usize);
        let r = ItemsChanged { position: index, removed: 1, added: 0 };
        proof {
            assert(final(self)@.take(index as int) =~= old(self)@.take(index as int));
            assert(final(self)@.skip(index as int) =~= old(self)@.skip(index + 1));
        }
        r
    }
}

/// After `append`, the new item is found at the old number of items and
/// every earlier item is still found where it was.
pub proof fn lemma_item_after_append<T>(
    before: YahooFinanceModel<T>,
    after: YahooFinanceModel<T>,
    item: T,
    position: u32,
)
    requires
        after@ == before@.push(item),
        before@.len() < u32::MAX,
    ensures
        after.item_at(before@.len() as u32) == Some(item),
        position < before@.len() ==> after.item_at(position) == before.item_at(position),
{
}

/// After `remove(index)`, the items before the index are still found where
/// they were and each later item is found one place earlier.
pub proof fn lemma_item_after_remove<T>(
    before: YahooFinanceModel<T>,
    after: YahooFinanceModel<T>,
    index: u32,
    position: u32,
)
    requires
        index < before@.len(),
        after@ == before@.remove(index as int),
    ensures
        position < index ==> after.item_at(position) == before.item_at(position),
        index <= position < u32::MAX ==> after.item_at(position) == before.item_at(
            (position + 1) as u32,
        ),
{
}

/// After `clear`, no position holds an item.
pub proof fn lemma_item_after_clear<T>(after: YahooFinanceModel<T>, position: u32)
    requires
        after@ == Seq::<T>::empty(),
    ensures
        after.item_at(position) is None,
{
}

} // verus!
