use vstd::prelude::*;

verus! {

/// What an item is good for.
#[derive(Debug, Clone)]
pub enum ItemType {
    Weapon { damage: u32 },
    Armor { defense: u32 },
    Consumable { health_restore: u32, mana_restore: u32 },
}

/// A thing that can be carried.
#[derive(Debug, Clone)]
pub struct Item {
    pub id: u32,
    pub name: String,
    pub item_type: ItemType,
    pub value: u32,
}

/// What an inventory is made of: the items in the order in which they came,
/// and how many it can hold.
pub struct InventoryView {
    pub items: Seq<Item>,
    pub capacity: usize,
}

/// A list of items that never grows beyond its capacity.
pub struct Inventory {
    items: Vec<Item>,
    capacity: usize,
}

impl View for Inventory {
    type V = InventoryView;

    closed spec fn view(&self) -> InventoryView {
        InventoryView { items: self.items@, capacity: self.capacity }
    }
}

impl Default for Inventory {
    /// An inventory that holds nothing and can hold nothing.
    fn default() -> (inv: Self)
        ensures
            inv@.items == Seq::<Item>::empty(),
            inv@.capacity == 0,
    {
        Inventory { items: Vec::new(), capacity: 0 }
    }
}

impl Inventory {
    #[verifier::type_invariant]
    spec fn within_capacity(self) -> bool {
        self.items.len() <= self.capacity
    }

    /// An empty inventory that can hold `capacity` items.
    pub fn new(capacity: usize) -> (inv: Self)
        ensures
            inv@.items == Seq::<Item>::empty(),
            inv@.capacity == capacity,
    {
        Self { items: Vec::new(), capacity }
    }

    /// How many items the inventory holds; never more than its capacity.
    pub fn len(&self) -> (n: usize)
        ensures
            n == self@.items.len(),
            n <= self@.capacity,
    {
        proof {
            use_type_invariant(self);
        }
        self.items.len()
    }

    /// How many items the inventory can hold.
    pub fn capacity(&self) -> (c: usize)
        ensures
            c == self@.capacity,
    {
        self.capacity
    }

    /// The items, in the order in which they came.
    pub fn items(&self) -> (items: &Vec<Item>)
        ensures
            items@ == self@.items,
            items@.len() <= self@.capacity,
    {
        proof {
            use_type_invariant(self);
        }
        &self.items
    }

    /// Puts `item` behind the others where there is room, and says whether
    /// there was. A full inventory stays as it is.
    pub fn add_item(&mut self, item: Item) -> (added: bool)
        ensures
            added == (old(self)@.items.len() < old(self)@.capacity),
            added ==> final(self)@.items == old(self)@.items.push(item),
            !added ==> final(self)@.items == old(self)@.items,
            final(self)@.capacity == old(self)@.capacity,
            final(self)@.items.len() <= final(self)@.capacity,
    {
        proof {
            use_type_invariant(&*self);
        }
        if self.items.len() < self.capacity {
            // The list leaves the inventory while it grows, so that the
            // inventory is never seen with more than it can hold.
            let mut items: Vec<Item> = Vec::new();
            std::mem::swap(&mut self.items, &mut items);
            items.push(item);
            self.items = items;
            true
        } else {
            false
        }
    }

    /// Takes out the item at `index` and hands it over; the items behind it
    /// move up. Where there is no such item, nothing changes.
    pub fn remove_item(&mut self, index: usize) -> (removed: Option<Item>)
        ensures
            removed.is_some() == (index < old(self)@.items.len()),
            removed.is_some() ==> removed.unwrap() == old(self)@.items[index as int]
                && final(self)@.items == old(self)@.items.remove(index as int),
            removed.is_none() ==> final(self)@.items == old(self)@.items,
            final(self)@.capacity == old(self)@.capacity,
            final(self)@.items.len() <= final(self)@.capacity,
    {
        proof {
            use_type_invariant(&*self);
        }
        if index < self.items.len() {
            let mut items: Vec<Item> = Vec::new();
            std::mem::swap(&mut self.items, &mut items);
            let item = items.remove(index);
            self.items = items;
            Some(item)
        } else {
            None
        }
    }
}

} // verus!
