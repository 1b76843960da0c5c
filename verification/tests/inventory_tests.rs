use astral_legends::inventory::{Inventory, Item, ItemCategory};

fn total(inv: &Inventory) -> u32 {
    inv.items.iter().map(|i| i.quantity).sum()
}

#[test]
fn item_kinds() {
    let h = Item::health_potion();
    assert_eq!(h.name, "Health Potion");
    assert_eq!(h.description, "Restores 30 HP.");
    assert!(h.category == ItemCategory::Consumable);
    assert_eq!((h.quantity, h.max_stack, h.heal_hp, h.heal_mana), (1, 10, 30, 0));
    let m = Item::mana_potion();
    assert_eq!(m.name, "Mana Potion");
    assert_eq!((m.quantity, m.max_stack, m.heal_hp, m.heal_mana), (1, 10, 0, 20));
    let a = Item::astral_herb();
    assert_eq!(a.name, "Astral Herb");
    assert!(a.category == ItemCategory::Material);
    assert_eq!((a.quantity, a.max_stack, a.heal_hp, a.heal_mana), (1, 20, 10, 5));
    let e = Item::elixir();
    assert_eq!(e.name, "Elixir");
    assert_eq!(e.description, "Fully restores HP and Mana.");
    assert_eq!((e.quantity, e.max_stack, e.heal_hp, e.heal_mana), (1, 5, 999, 999));
}

#[test]
fn starting_inventory() {
    let inv = Inventory::new();
    assert_eq!(inv.gold, 50);
    let names: Vec<&str> = inv.items.iter().map(|i| i.name.as_str()).collect();
    assert_eq!(names, vec!["Health Potion", "Health Potion", "Mana Potion"]);
    assert!(!inv.is_full());
}

#[test]
fn adding_tops_up_existing_stacks_first() {
    let mut inv = Inventory::new();
    inv.add_item(Item::health_potion());
    assert_eq!(inv.items.len(), 3);
    assert_eq!(inv.items[0].quantity, 2);
    assert_eq!(inv.items[1].quantity, 1);
    let mut many = Item::health_potion();
    many.quantity = 15;
    inv.add_item(many);
    assert_eq!(inv.items[0].quantity, 10);
    assert_eq!(inv.items[1].quantity, 8);
    assert_eq!(inv.items.len(), 3);
    assert_eq!(total(&inv), 19);
}

#[test]
fn leftover_becomes_a_new_stack() {
    let mut inv = Inventory::new();
    let mut many = Item::health_potion();
    many.quantity = 25;
    inv.add_item(many);
    assert_eq!(inv.items.len(), 4);
    assert_eq!(inv.items[0].quantity, 10);
    assert_eq!(inv.items[1].quantity, 10);
    assert_eq!(inv.items[3].quantity, 7);
    assert_eq!(inv.items[3].name, "Health Potion");
    assert_eq!(total(&inv), 3 + 25);
}

#[test]
fn different_category_does_not_stack() {
    let mut inv = Inventory::new();
    let mut odd = Item::health_potion();
    odd.category = ItemCategory::Material;
    inv.add_item(odd);
    assert_eq!(inv.items.len(), 4);
    assert_eq!(inv.items[0].quantity, 1);
}

#[test]
fn full_inventory_turns_away_new_stacks() {
    let mut inv = Inventory::new();
    let mut k = 0;
    while !inv.is_full() {
        let mut it = Item::elixir();
        it.name = format!("Relic {}", k);
        inv.add_item(it);
        k += 1;
    }
    assert_eq!(inv.items.len(), 20);
    let before = total(&inv);
    inv.add_item(Item::astral_herb());
    assert_eq!(inv.items.len(), 20);
    assert_eq!(total(&inv), before);
    inv.add_item(Item::health_potion());
    assert_eq!(inv.items[0].quantity, 2);
    assert_eq!(total(&inv), before + 1);
}

#[test]
fn using_an_item() {
    let mut inv = Inventory::new();
    let (mut hp, mut mana) = (100, 10);
    let msg = inv.use_item(0, &mut hp, 170, &mut mana, 62);
    assert_eq!(msg.as_deref(), Some("Used Health Potion: +30 HP, +0 Mana"));
    assert_eq!((hp, mana), (130, 10));
    assert_eq!(inv.items.len(), 2);
    let msg = inv.use_item(1, &mut hp, 170, &mut mana, 62);
    assert_eq!(msg.as_deref(), Some("Used Mana Potion: +0 HP, +20 Mana"));
    assert_eq!(mana, 30);
    assert_eq!(inv.items.len(), 1);
}

#[test]
fn healing_is_capped_by_what_is_missing() {
    let mut inv = Inventory::new();
    inv.add_item(Item::elixir());
    let (mut hp, mut mana) = (160, 60);
    let msg = inv.use_item(3, &mut hp, 170, &mut mana, 62);
    assert_eq!(msg.as_deref(), Some("Used Elixir: +10 HP, +2 Mana"));
    assert_eq!((hp, mana), (170, 62));
    let msg = inv.use_item(0, &mut hp, 170, &mut mana, 62);
    assert_eq!(msg.as_deref(), Some("Used Health Potion: +0 HP, +0 Mana"));
}

#[test]
fn stacks_lose_one_item_per_use() {
    let mut inv = Inventory::new();
    let mut herbs = Item::astral_herb();
    herbs.quantity = 3;
    inv.add_item(herbs);
    let (mut hp, mut mana) = (10, 10);
    assert!(inv.use_item(3, &mut hp, 170, &mut mana, 62).is_some());
    assert_eq!(inv.items[3].quantity, 2);
    assert_eq!((hp, mana), (20, 15));
}

#[test]
fn unusable_items_change_nothing() {
    let mut inv = Inventory::new();
    let (mut hp, mut mana) = (10, 10);
    assert_eq!(inv.use_item(9, &mut hp, 170, &mut mana, 62), None);
    let mut gear = Item::elixir();
    gear.category = ItemCategory::Equipment;
    inv.add_item(gear);
    assert_eq!(inv.use_item(3, &mut hp, 170, &mut mana, 62), None);
    inv.items[0].quantity = 0;
    assert_eq!(inv.use_item(0, &mut hp, 170, &mut mana, 62), None);
    assert_eq!((hp, mana), (10, 10));
    assert_eq!(inv.items.len(), 4);
}
