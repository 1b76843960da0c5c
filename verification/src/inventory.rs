//! The champion's inventory: stackable items, stacking rules, the twenty-slot
//! limit, and using an item to restore hit points and mana.
use vstd::prelude::*;

use crate::num::{imax, imin};
use crate::text::{append_int, decimal};

verus! {

/// What kind of item this is; equipment cannot be used from the inventory.
#[derive(Clone, Copy, PartialEq, Eq, Structural, Debug)]
pub enum ItemCategory {
    Consumable,
    Material,
    Equipment,
}

/// A stack of identical items.
#[derive(Clone, Debug)]
pub struct Item {
    pub name: String,
    pub description: String,
    pub category: ItemCategory,
    pub quantity: u32,
    pub max_stack: u32,
    pub heal_hp: i32,
    pub heal_mana: i32,
}

/// Whether `it` is a single item with the given name, description, category,
/// stack size and healing.
pub open spec fn is_single(
    it: Item,
    name: Seq<char>,
    description: Seq<char>,
    category: ItemCategory,
    max_stack: u32,
    heal_hp: i32,
    heal_mana: i32,
) -> bool {
    &&& it.name@ == name
    &&& it.description@ == description
    &&& it.category == category
    &&& it.quantity == 1
    &&& it.max_stack == max_stack
    &&& it.heal_hp == heal_hp
    &&& it.heal_mana == heal_mana
}

pub open spec fn is_health_potion(it: Item) -> bool {
    is_single(it, "Health Potion"@, "Restores 30 HP."@, ItemCategory::Consumable, 10, 30, 0)
}

pub open spec fn is_mana_potion(it: Item) -> bool {
    is_single(it, "Mana Potion"@, "Restores 20 Mana."@, ItemCategory::Consumable, 10, 0, 20)
}

pub open spec fn is_astral_herb(it: Item) -> bool {
    is_single(
        it,
        "Astral Herb"@,
        "A glowing herb. Restores 10 HP & 5 Mana."@,
        ItemCategory::Material,
        20,
        10,
        5,
    )
}

pub open spec fn is_elixir(it: Item) -> bool {
    is_single(it, "Elixir"@, "Fully restores HP and Mana."@, ItemCategory::Consumable, 5, 999, 999)
}

impl Item {
    pub fn health_potion() -> (it: Self)
        ensures
            is_health_potion(it),
    {
        Item {
            name: String::from_str("Health Potion"),
            description: String::from_str("Restores 30 HP."),
            category: ItemCategory::Consumable,
            quantity: 1,
            max_stack: 10,
            heal_hp: 30,
            heal_mana: 0,
        }
    }

    pub fn mana_potion() -> (it: Self)
        ensures
            is_mana_potion(it),
    {
        Item {
            name: String::from_str("Mana Potion"),
            description: String::from_str("Restores 20 Mana."),
            category: ItemCategory::Consumable,
            quantity: 1,
            max_stack: 10,
            heal_hp: 0,
            heal_mana: 20,
        }
    }

    pub fn astral_herb() -> (it: Self)
        ensures
            is_astral_herb(it),
    {
        Item {
            name: String::from_str("Astral Herb"),
            description: String::from_str("A glowing herb. Restores 10 HP & 5 Mana."),
            category: ItemCategory::Material,
            quantity: 1,
            max_stack: 20,
            heal_hp: 10,
            heal_mana: 5,
        }
    }

    pub fn elixir() -> (it: Self)
        ensures
            is_elixir(it),
    {
        Item {
            name: String::from_str("Elixir"),
            description: String::from_str("Fully restores HP and Mana."),
            category: ItemCategory::Consumable,
            quantity: 1,
            max_stack: 5,
            heal_hp: 999,
            heal_mana: 999,
        }
    }

    /// A copy of this stack.
    pub(crate) fn copy(&self) -> (it: Self)
        ensures
            it == *self,
    {
        Item {
            name: self.name.clone(),
            description: self.description.clone(),
            category: self.category,
            quantity: self.quantity,
            max_stack: self.max_stack,
            heal_hp: self.heal_hp,
            heal_mana: self.heal_mana,
        }
    }
}

/// The number of stacks an inventory holds at most.
pub const CAPACITY: usize = 20;

/// Whether `stack` takes more items called `name` of category `cat`: same
/// name and category, and room left.
pub open spec fn stacks_with(stack: Item, name: Seq<char>, cat: ItemCategory) -> bool {
    &&& stack.name@ == name
    &&& stack.category == cat
    &&& stack.quantity < stack.max_stack
}

/// How many of `q` items called `name` are still to be placed after the
/// first `n` stacks took what they had room for.
pub open spec fn left_after(items: Seq<Item>, name: Seq<char>, cat: ItemCategory, q: int, n: int) -> int
    decreases n,
{
    if n <= 0 {
        q
    } else {
        let before = left_after(items, name, cat, q, n - 1);
        let s = items[n - 1];
        if stacks_with(s, name, cat) {
            before - imin(before, s.max_stack - s.quantity)
        } else {
            before
        }
    }
}

/// Stack `i` after the stacks before it took their share of `q` items.
pub open spec fn filled(items: Seq<Item>, name: Seq<char>, cat: ItemCategory, q: int, i: int) -> Item {
    let before = left_after(items, name, cat, q, i);
    let s = items[i];
    if stacks_with(s, name, cat) {
        Item { quantity: (s.quantity + imin(before, s.max_stack - s.quantity)) as u32, ..s }
    } else {
        s
    }
}

/// Every stack after offering `q` items called `name`, front to back.
pub open spec fn filled_stacks(items: Seq<Item>, name: Seq<char>, cat: ItemCategory, q: int) -> Seq<Item> {
    Seq::new(items.len(), |i: int| filled(items, name, cat, q, i))
}

/// The items that `item` does not fit into existing stacks.
pub open spec fn leftover(items: Seq<Item>, item: Item) -> int {
    left_after(items, item.name@, item.category, item.quantity as int, items.len() as int)
}

/// The stacks after adding `item`: it tops up matching stacks front to back,
/// and what is left becomes a new stack if there is a free slot (otherwise
/// it is lost).
pub open spec fn added(items: Seq<Item>, item: Item) -> Seq<Item> {
    let stacks = filled_stacks(items, item.name@, item.category, item.quantity as int);
    let left = leftover(items, item);
    if left > 0 && items.len() < CAPACITY {
        stacks.push(Item { quantity: left as u32, ..item })
    } else {
        stacks
    }
}

/// What is left to place never grows and never goes below zero.
pub proof fn lemma_left_after_bounds(items: Seq<Item>, name: Seq<char>, cat: ItemCategory, q: int, m: int, n: int)
    requires
        q >= 0,
        0 <= m <= n <= items.len(),
    ensures
        0 <= left_after(items, name, cat, q, n) <= left_after(items, name, cat, q, m) <= q,
    decreases n,
{
    if n > m {
        lemma_left_after_bounds(items, name, cat, q, m, n - 1);
    } else if m > 0 {
        lemma_left_after_bounds(items, name, cat, q, m - 1, m - 1);
    }
}

/// Once nothing is left to place, the remaining stacks stay as they were.
proof fn lemma_rest_untouched(items: Seq<Item>, name: Seq<char>, cat: ItemCategory, q: int, m: int, j: int)
    requires
        q >= 0,
        0 <= m <= j < items.len(),
        left_after(items, name, cat, q, m) == 0,
    ensures
        filled(items, name, cat, q, j) == items[j],
{
    lemma_left_after_bounds(items, name, cat, q, m, j);
}

/// The number of items in the first `n` stacks.
pub open spec fn qsum(s: Seq<Item>, n: int) -> int
    decreases n,
{
    if n <= 0 {
        0
    } else {
        qsum(s, n - 1) + s[n - 1].quantity
    }
}

/// The number of items in all stacks.
pub open spec fn total(s: Seq<Item>) -> int {
    qsum(s, s.len() as int)
}

proof fn lemma_qsum_agree(a: Seq<Item>, b: Seq<Item>, n: int)
    requires
        0 <= n <= a.len(),
        n <= b.len(),
        forall|j: int| 0 <= j < n ==> a[j].quantity == b[j].quantity,
    ensures
        qsum(a, n) == qsum(b, n),
    decreases n,
{
    if n > 0 {
        lemma_qsum_agree(a, b, n - 1);
    }
}

proof fn lemma_qsum_filled(items: Seq<Item>, name: Seq<char>, cat: ItemCategory, q: int, n: int)
    requires
        q >= 0,
        0 <= n <= items.len(),
    ensures
        qsum(filled_stacks(items, name, cat, q), n) == qsum(items, n) + q - left_after(items, name, cat, q, n),
    decreases n,
{
    if n > 0 {
        lemma_qsum_filled(items, name, cat, q, n - 1);
        lemma_left_after_bounds(items, name, cat, q, n - 1, n - 1);
        assert(filled_stacks(items, name, cat, q)[n - 1] == filled(items, name, cat, q, n - 1));
    }
}

proof fn lemma_qsum_update(s: Seq<Item>, i: int, x: Item, n: int)
    requires
        0 <= i < n <= s.len(),
    ensures
        qsum(s.update(i, x), n) == qsum(s, n) - s[i].quantity + x.quantity,
    decreases n,
{
    if n - 1 > i {
        lemma_qsum_update(s, i, x, n - 1);
    } else {
        lemma_qsum_agree(s.update(i, x), s, i);
    }
}

proof fn lemma_qsum_remove(s: Seq<Item>, i: int, n: int)
    requires
        0 <= i <= n < s.len(),
    ensures
        qsum(s.remove(i), n) == qsum(s, n + 1) - s[i].quantity,
    decreases n,
{
    if n > i {
        lemma_qsum_remove(s, i, n - 1);
    } else {
        lemma_qsum_agree(s.remove(i), s, i);
    }
}

/// Adding an item loses nothing but what a full inventory turns away: the
/// items in all stacks grow by the quantity added, less the leftover that
/// finds no free slot.
pub proof fn lemma_add_item_conserves(items: Seq<Item>, item: Item)
    ensures
        total(added(items, item)) == total(items) + item.quantity - (if items.len() < CAPACITY {
            0
        } else {
            leftover(items, item)
        }),
{
    let n = items.len() as int;
    let q = item.quantity as int;
    let stacks = filled_stacks(items, item.name@, item.category, q);
    lemma_qsum_filled(items, item.name@, item.category, q, n);
    lemma_left_after_bounds(items, item.name@, item.category, q, 0, n);
    let left = leftover(items, item);
    if left > 0 && items.len() < CAPACITY {
        let pushed = stacks.push(Item { quantity: left as u32, ..item });
        lemma_qsum_agree(pushed, stacks, n);
    }
}

/// Adding an item never fills a stack past its size, and changes a stack
/// only in its quantity, and only a stack of the same name and category.
pub proof fn lemma_add_item_respects_stacks(items: Seq<Item>, item: Item, j: int)
    requires
        0 <= j < items.len(),
        items[j].quantity <= items[j].max_stack,
    ensures
        added(items, item)[j].quantity <= items[j].max_stack,
        added(items, item)[j] == (Item { quantity: added(items, item)[j].quantity, ..items[j] }),
        added(items, item)[j].quantity != items[j].quantity ==> items[j].name@ == item.name@
            && items[j].category == item.category,
        items[j].quantity <= added(items, item)[j].quantity,
{
    lemma_left_after_bounds(items, item.name@, item.category, item.quantity as int, j, j);
}

/// Adding an item never takes an inventory past twenty stacks, and adds at
/// most one stack.
pub proof fn lemma_add_item_capacity(items: Seq<Item>, item: Item)
    ensures
        items.len() <= added(items, item).len() <= items.len() + 1,
        items.len() <= CAPACITY ==> added(items, item).len() <= CAPACITY,
{
}

/// Whether `x` is a stack of items called `name` of category `cat`.
pub open spec fn matching(x: Item, name: Seq<char>, cat: ItemCategory) -> bool {
    x.name@ == name && x.category == cat
}

/// The room that stack `x` offers to items called `name` of category `cat`.
pub open spec fn room_of(x: Item, name: Seq<char>, cat: ItemCategory) -> int {
    if stacks_with(x, name, cat) {
        x.max_stack - x.quantity
    } else {
        0
    }
}

/// The room the first `n` stacks offer to items called `name` of category `cat`.
pub open spec fn room_sum(items: Seq<Item>, name: Seq<char>, cat: ItemCategory, n: int) -> int
    decreases n,
{
    if n <= 0 {
        0
    } else {
        room_sum(items, name, cat, n - 1) + room_of(items[n - 1], name, cat)
    }
}

/// The number of items called `name` of category `cat` in the first `n` stacks.
pub open spec fn msum(s: Seq<Item>, name: Seq<char>, cat: ItemCategory, n: int) -> int
    decreases n,
{
    if n <= 0 {
        0
    } else {
        msum(s, name, cat, n - 1) + if matching(s[n - 1], name, cat) {
            s[n - 1].quantity as int
        } else {
            0
        }
    }
}

proof fn lemma_left_after_is_excess(items: Seq<Item>, name: Seq<char>, cat: ItemCategory, q: int, n: int)
    requires
        q >= 0,
        0 <= n <= items.len(),
    ensures
        left_after(items, name, cat, q, n) == imax(q - room_sum(items, name, cat, n), 0),
    decreases n,
{
    if n > 0 {
        lemma_left_after_is_excess(items, name, cat, q, n - 1);
    }
}

proof fn lemma_msum_agree(a: Seq<Item>, b: Seq<Item>, name: Seq<char>, cat: ItemCategory, n: int)
    requires
        0 <= n <= a.len(),
        n <= b.len(),
        forall|j: int| 0 <= j < n ==> a[j] == b[j],
    ensures
        msum(a, name, cat, n) == msum(b, name, cat, n),
    decreases n,
{
    if n > 0 {
        lemma_msum_agree(a, b, name, cat, n - 1);
    }
}

proof fn lemma_msum_filled(items: Seq<Item>, name: Seq<char>, cat: ItemCategory, q: int, n: int)
    requires
        q >= 0,
        0 <= n <= items.len(),
    ensures
        msum(filled_stacks(items, name, cat, q), name, cat, n) == msum(items, name, cat, n) + q - left_after(
            items,
            name,
            cat,
            q,
            n,
        ),
    decreases n,
{
    if n > 0 {
        lemma_msum_filled(items, name, cat, q, n - 1);
        lemma_left_after_bounds(items, name, cat, q, n - 1, n - 1);
        assert(filled_stacks(items, name, cat, q)[n - 1] == filled(items, name, cat, q, n - 1));
    }
}

/// When a slot is free, adding an item opens a new stack exactly when the
/// room left in the stacks of the same name and category is smaller than the
/// quantity added; the new stack holds the excess.
pub proof fn lemma_add_item_new_stack(items: Seq<Item>, item: Item)
    requires
        items.len() < CAPACITY,
    ensures
        leftover(items, item) == imax(item.quantity - room_sum(items, item.name@, item.category, items.len() as int), 0),
        (added(items, item).len() == items.len() + 1) <==> room_sum(items, item.name@, item.category, items.len() as int)
            < item.quantity,
{
    lemma_left_after_is_excess(items, item.name@, item.category, item.quantity as int, items.len() as int);
}

/// Adding an item changes the count of items of its name and category by the
/// quantity added, less the leftover that a full inventory turns away.
pub proof fn lemma_add_item_matching_total(items: Seq<Item>, item: Item)
    ensures
        ({
            let name = item.name@;
            let cat = item.category;
            let after = added(items, item);
            msum(after, name, cat, after.len() as int) == msum(items, name, cat, items.len() as int) + item.quantity
                - (if items.len() < CAPACITY {
                0
            } else {
                leftover(items, item)
            })
        }),
{
    let name = item.name@;
    let cat = item.category;
    let n = items.len() as int;
    let q = item.quantity as int;
    let stacks = filled_stacks(items, name, cat, q);
    lemma_msum_filled(items, name, cat, q, n);
    lemma_left_after_bounds(items, name, cat, q, 0, n);
    let left = leftover(items, item);
    if left > 0 && items.len() < CAPACITY {
        let pushed = stacks.push(Item { quantity: left as u32, ..item });
        lemma_msum_agree(pushed, stacks, name, cat, n);
    }
}

/// A stack that `add_item` opens is the added item itself, with only its
/// quantity changed to what did not fit: name, description, category,
/// stack size and healing are the item's.
pub proof fn lemma_new_stack_is_the_item(items: Seq<Item>, item: Item)
    ensures
        added(items, item).len() == items.len() + 1 ==> {
            &&& leftover(items, item) > 0
            &&& added(items, item).last() == (Item { quantity: leftover(items, item) as u32, ..item })
        },
        added(items, item).len() == items.len() + 1 || added(items, item).len() == items.len(),
{
}

proof fn lemma_no_match_passes_through(items: Seq<Item>, name: Seq<char>, cat: ItemCategory, q: int, n: int)
    requires
        0 <= n <= items.len(),
        forall|j: int| 0 <= j < n ==> !matching(#[trigger] items[j], name, cat),
    ensures
        left_after(items, name, cat, q, n) == q,
        forall|j: int| 0 <= j < n ==> filled(items, name, cat, q, j) == items[j],
    decreases n,
{
    if n > 0 {
        lemma_no_match_passes_through(items, name, cat, q, n - 1);
        assert forall|j: int| 0 <= j < n implies filled(items, name, cat, q, j) == items[j] by {
            if j < n - 1 {
            } else {
                assert(!matching(items[j], name, cat));
            }
        }
    }
}

/// Picking up two single items of a kind that stacks (stack size two or
/// more), when no stack of that kind is carried and a slot is free, leaves
/// one new stack of two at the end, and the other stacks as they were.
pub proof fn lemma_two_singles_share_a_stack(items: Seq<Item>, item: Item)
    requires
        items.len() < CAPACITY,
        item.quantity == 1,
        item.max_stack >= 2,
        forall|j: int| 0 <= j < items.len() ==> !matching(#[trigger] items[j], item.name@, item.category),
    ensures
        ({
            let twice = added(added(items, item), item);
            &&& twice.len() == items.len() + 1
            &&& twice.last() == (Item { quantity: 2, ..item })
            &&& twice.take(items.len() as int) == items
        }),
{
    let name = item.name@;
    let cat = item.category;
    let n = items.len() as int;
    lemma_no_match_passes_through(items, name, cat, 1, n);
    let single = Item { quantity: 1, ..item };
    assert(filled_stacks(items, name, cat, 1) =~= items);
    let once = added(items, item);
    assert(once =~= items.push(single));
    assert forall|j: int| 0 <= j < n implies !matching(#[trigger] once[j], name, cat) by {
        assert(once[j] == items[j]);
    }
    lemma_no_match_passes_through(once, name, cat, 1, n);
    assert(stacks_with(once[n], name, cat));
    assert(left_after(once, name, cat, 1, n + 1) == 0);
    let twice = added(once, item);
    assert(twice =~= filled_stacks(once, name, cat, 1));
    assert(twice[n] == filled(once, name, cat, 1, n));
    assert(twice.take(n) =~= items);
}

/// The hit points an item restores are its healing, unless that would pass
/// the maximum, in which case they fill up to the maximum exactly; more
/// healing never restores less. The same holds for mana.
pub proof fn lemma_gain_is_capped_healing(it: Item, other: Item, hp: int, max_hp: int, mana: int, max_mana: int)
    requires
        hp <= max_hp,
        mana <= max_mana,
    ensures
        it.heal_hp <= max_hp - hp ==> hp_gain(it, hp, max_hp) == it.heal_hp,
        it.heal_hp >= max_hp - hp ==> hp + hp_gain(it, hp, max_hp) == max_hp,
        it.heal_hp <= other.heal_hp ==> hp_gain(it, hp, max_hp) <= hp_gain(other, hp, max_hp),
        it.heal_hp >= 0 ==> imin(hp + hp_gain(it, hp, max_hp), max_hp) == imin(hp + it.heal_hp, max_hp),
        it.heal_mana <= max_mana - mana ==> mana_gain(it, mana, max_mana) == it.heal_mana,
        it.heal_mana >= max_mana - mana ==> mana + mana_gain(it, mana, max_mana) == max_mana,
        it.heal_mana <= other.heal_mana ==> mana_gain(it, mana, max_mana) <= mana_gain(other, mana, max_mana),
        it.heal_mana >= 0 ==> imin(mana + mana_gain(it, mana, max_mana), max_mana) == imin(mana + it.heal_mana, max_mana),
{
}

/// Using an item takes exactly one item out of the inventory.
pub proof fn lemma_use_item_consumes_one(items: Seq<Item>, index: int)
    requires
        usable(items, index),
    ensures
        total(used(items, index)) == total(items) - 1,
{
    let it = items[index];
    if it.quantity == 1 {
        lemma_qsum_remove(items, index, items.len() - 1);
    } else {
        lemma_qsum_update(items, index, Item { quantity: (it.quantity - 1) as u32, ..it }, items.len() as int);
    }
}

/// Whether `use_item` can use stack `index`: it exists, is not empty and is
/// not equipment.
pub open spec fn usable(items: Seq<Item>, index: int) -> bool {
    &&& 0 <= index < items.len()
    &&& items[index].quantity != 0
    &&& items[index].category != ItemCategory::Equipment
}

/// The hit points an item restores: its healing, capped by what is missing.
pub open spec fn hp_gain(it: Item, hp: int, max_hp: int) -> int {
    imin(it.heal_hp as int, max_hp - hp)
}

/// The mana an item restores: its mana, capped by what is missing.
pub open spec fn mana_gain(it: Item, mana: int, max_mana: int) -> int {
    imin(it.heal_mana as int, max_mana - mana)
}

/// The stacks after one item of stack `index` is used up: an emptied stack is removed.
pub open spec fn used(items: Seq<Item>, index: int) -> Seq<Item> {
    let it = items[index];
    if it.quantity == 1 {
        items.remove(index)
    } else {
        items.update(index, Item { quantity: (it.quantity - 1) as u32, ..it })
    }
}

/// Whether using an item keeps the arithmetic within `i32`.
pub open spec fn use_fits(it: Item, hp: int, max_hp: int, mana: int, max_mana: int) -> bool {
    &&& i32::MIN <= max_hp - hp <= i32::MAX
    &&& i32::MIN <= max_mana - mana <= i32::MAX
    &&& i32::MIN <= hp + hp_gain(it, hp, max_hp) <= i32::MAX
    &&& i32::MIN <= mana + mana_gain(it, mana, max_mana) <= i32::MAX
}

/// The message of using `it`.
pub open spec fn use_text(it: Item, hp_gain: int, mana_gain: int) -> Seq<char> {
    "Used "@ + it.name@ + ": +"@ + decimal(hp_gain) + " HP, +"@ + decimal(mana_gain) + " Mana"@
}

/// The carried items and gold.
#[derive(Clone, Debug)]
pub struct Inventory {
    pub items: Vec<Item>,
    pub gold: u32,
}

impl Inventory {
    /// Two health potions, a mana potion, and 50 gold.
    pub fn new() -> (inv: Self)
        ensures
            inv.items@.len() == 3,
            is_health_potion(inv.items@[0]),
            is_health_potion(inv.items@[1]),
            is_mana_potion(inv.items@[2]),
            inv.gold == 50,
    {
        Inventory {
            items: vec![Item::health_potion(), Item::health_potion(), Item::mana_potion()],
            gold: 50,
        }
    }

    /// Whether all twenty slots are taken.
    pub fn is_full(&self) -> (full: bool)
        ensures
            full == (self.items@.len() >= CAPACITY),
    {
        self.items.len() >= CAPACITY
    }

    /// Adds `item`: it first tops up the stacks of the same name and
    /// category that have room, front to back; what is left becomes a new
    /// stack when a slot is free, and is lost otherwise.
    pub fn add_item(&mut self, item: Item)
        ensures
            final(self).items@ == added(old(self).items@, item),
            final(self).gold == old(self).gold,
    {
        let mut item = item;
        let ghost items0 = self.items@;
        let ghost item0 = item;
        let ghost name = item0.name@;
        let ghost cat = item0.category;
        let ghost q0 = item0.quantity as int;
        let n = self.items.len();
        let mut i: usize = 0;
        while i < n && item.quantity > 0
            invariant
                n == items0.len(),
                self.items@.len() == n,
                i <= n,
                forall|j: int| 0 <= j < i ==> self.items@[j] == filled(items0, name, cat, q0, j),
                forall|j: int| i <= j < n ==> self.items@[j] == items0[j],
                item == (Item { quantity: item.quantity, ..item0 }),
                item.quantity == left_after(items0, name, cat, q0, i as int),
                self.gold == old(self).gold,
                name == item0.name@,
                cat == item0.category,
                q0 == item0.quantity,
            decreases n - i,
        {
            let fits = self.items[i].name == item.name && self.items[i].category == item.category
                && self.items[i].quantity < self.items[i].max_stack;
            if fits {
                let space = self.items[i].max_stack - self.items[i].quantity;
                let to_add = if item.quantity < space { item.quantity } else { space };
                self.items[i].quantity = self.items[i].quantity + to_add;
                item.quantity = item.quantity - to_add;
            }
            i += 1;
        }
        proof {
            if item.quantity == 0 {
                assert forall|j: int| i <= j < n implies self.items@[j] == filled(items0, name, cat, q0, j) by {
                    lemma_rest_untouched(items0, name, cat, q0, i as int, j);
                }
                lemma_left_after_bounds(items0, name, cat, q0, i as int, n as int);
            }
            assert(self.items@ =~= filled_stacks(items0, name, cat, q0));
        }
        if item.quantity > 0 && !self.is_full() {
            self.items.push(item);
        }
        proof {
            assert(self.items@ =~= added(items0, item0));
        }
    }

    /// Uses one item of stack `index` to restore hit points and mana, each
    /// capped by what is missing; an emptied stack is removed. Returns the
    /// message to show, or `None` (changing nothing) when the stack does not
    /// exist, is empty or holds equipment.
    pub fn use_item(&mut self, index: usize, hp: &mut i32, max_hp: i32, mana: &mut i32, max_mana: i32) -> (msg: Option<String>)
        requires
            usable(old(self).items@, index as int) ==> use_fits(
                old(self).items@[index as int],
                *old(hp) as int,
                max_hp as int,
                *old(mana) as int,
                max_mana as int,
            ),
        ensures
            !usable(old(self).items@, index as int) ==> {
                &&& msg is None
                &&& *final(self) == *old(self)
                &&& *final(hp) == *old(hp)
                &&& *final(mana) == *old(mana)
            },
            usable(old(self).items@, index as int) ==> {
                let it = old(self).items@[index as int];
                let h = hp_gain(it, *old(hp) as int, max_hp as int);
                let m = mana_gain(it, *old(mana) as int, max_mana as int);
                &&& *final(hp) == imin(*old(hp) + h, max_hp as int)
                &&& *final(mana) == imin(*old(mana) + m, max_mana as int)
                &&& final(self).items@ == used(old(self).items@, index as int)
                &&& final(self).gold == old(self).gold
                &&& msg is Some && msg->0@ == use_text(it, h, m)
            },
    {
        if index >= self.items.len() {
            return None;
        }
        if self.items[index].quantity == 0 {
            return None;
        }
        let cat = self.items[index].category;
        if cat != ItemCategory::Consumable && cat != ItemCategory::Material {
            return None;
        }
        let ghost it = self.items@[index as int];
        let missing_hp = max_hp - *hp;
        let heal_hp = if self.items[index].heal_hp < missing_hp { self.items[index].heal_hp } else { missing_hp };
        let missing_mana = max_mana - *mana;
        let heal_mana = if self.items[index].heal_mana < missing_mana {
            self.items[index].heal_mana
        } else {
            missing_mana
        };
        let new_hp = *hp + heal_hp;
        *hp = if new_hp < max_hp { new_hp } else { max_hp };
        let new_mana = *mana + heal_mana;
        *mana = if new_mana < max_mana { new_mana } else { max_mana };

        let name = self.items[index].name.clone();
        self.items[index].quantity = self.items[index].quantity - 1;
        if self.items[index].quantity == 0 {
            self.items.remove(index);
        }
        proof {
            assert(self.items@ =~= used(old(self).items@, index as int));
        }
        let mut m = String::from_str("Used ");
        m.append(name.as_str());
        m.append(": +");
        append_int(&mut m, heal_hp);
        m.append(" HP, +");
        append_int(&mut m, heal_mana);
        m.append(" Mana");
        proof {
            assert(m@ =~= use_text(it, heal_hp as int, heal_mana as int));
        }
        Some(m)
    }
}

} // verus!
