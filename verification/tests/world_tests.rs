use astral_legends::character::CharacterClass;
use astral_legends::combat::{CombatPhase, CombatState, Enemy};
use astral_legends::dialogue::generic_dialogue;
use astral_legends::inventory::Inventory;
use astral_legends::text::int_to_string;
use astral_legends::world::{
    collide_tile, continue_dialogue, gen_map, initial_entities, interact, resolve_combat, start_combat, tile_solid,
    CombatResolution, EntityKind, Interaction, MAP_H, MAP_W,
};

#[test]
fn map_layout() {
    let m = gen_map();
    for x in 0..MAP_W {
        assert_eq!(m.tile(x, 0), 1);
        assert_eq!(m.tile(x, MAP_H - 1), 1);
    }
    for y in 0..MAP_H {
        assert_eq!(m.tile(0, y), 1);
        assert_eq!(m.tile(MAP_W - 1, y), 1);
    }
    assert_eq!(m.tile(5, 3), 1);
    assert_eq!(m.tile(7, 5), 1);
    assert_eq!(m.tile(8, 5), 0);
    assert_eq!(m.tile(16, 11), 1);
    assert_eq!(m.tile(2, 4), 2);
    assert_eq!(m.tile(3, 6), 2);
    assert_eq!(m.tile(9, 13), 2);
    assert_eq!(m.tile(12, 9), 0);
    let solid = (0..MAP_H).flat_map(|y| (0..MAP_W).map(move |x| (x, y))).filter(|&(x, y)| m.tile(x, y) == 1).count();
    assert_eq!(solid, 2 * 25 + 2 * 16 + 9 + 9);
}

#[test]
fn collisions() {
    let m = gen_map();
    assert!(!tile_solid(0));
    assert!(tile_solid(1));
    assert!(tile_solid(2));
    assert!(tile_solid(-1));
    assert!(collide_tile(&m, 0, 5));
    assert!(collide_tile(&m, 2, 5));
    assert!(!collide_tile(&m, 12, 9));
    assert!(collide_tile(&m, MAP_W, 3));
    assert!(collide_tile(&m, 3, MAP_H));
}

#[test]
fn starting_entities() {
    let es = initial_entities();
    assert_eq!(es.len(), 10);
    assert!(es.iter().all(|e| e.alive));
    assert!(matches!(es[1].kind, EntityKind::Npc(1)));
    assert_eq!((es[1].tile_x, es[1].tile_y), (15, 10));
    match &es[6].kind {
        EntityKind::Enemy(e) => {
            assert_eq!(e.name, "Fenrir Spawn");
            assert_eq!((e.hp, e.str, e.agi), (90, 14, 15));
        },
        _ => panic!("expected an enemy"),
    }
    match &es[9].kind {
        EntityKind::Pickup(it, collected) => {
            assert_eq!(it.name, "Astral Herb");
            assert!(!collected);
        },
        _ => panic!("expected a pickup"),
    }
}

#[test]
fn meeting_an_enemy_starts_a_fight() {
    let mut es = initial_entities();
    let mut inv = Inventory::new();
    match interact(&mut es, 3, &mut inv) {
        Interaction::Combat(e) => assert_eq!(e.name, "Shadow Wolf"),
        _ => panic!("expected a fight"),
    }
    assert!(!es[3].alive);
    assert_eq!(inv.items.len(), 3);
}

#[test]
fn talking_to_a_person() {
    let mut es = initial_entities();
    let mut inv = Inventory::new();
    match interact(&mut es, 1, &mut inv) {
        Interaction::Talk(d) => assert_eq!(d.current(), "The old ones speak of a rift in the stars..."),
        _ => panic!("expected a dialogue"),
    }
    assert!(es[1].alive);
}

#[test]
fn picking_up_an_item() {
    let mut es = initial_entities();
    let mut inv = Inventory::new();
    match interact(&mut es, 7, &mut inv) {
        Interaction::PickedUp(m) => assert_eq!(m, "Picked up Health Potion."),
        _ => panic!("expected a pickup"),
    }
    assert!(!es[7].alive);
    assert_eq!(inv.items[0].quantity, 2);
    match interact(&mut es, 9, &mut inv) {
        Interaction::PickedUp(m) => assert_eq!(m, "Picked up Astral Herb."),
        _ => panic!("expected a pickup"),
    }
    assert_eq!(inv.items.len(), 4);
    assert_eq!(inv.items[3].quantity, 1);
}

#[test]
fn collected_pickup_does_nothing() {
    let mut es = initial_entities();
    let mut inv = Inventory::new();
    if let EntityKind::Pickup(_, collected) = &mut es[8].kind {
        *collected = true;
    }
    assert!(matches!(interact(&mut es, 8, &mut inv), Interaction::Nothing));
    assert!(es[8].alive);
    assert_eq!(inv.items.len(), 3);
}

#[test]
fn a_fight_begins() {
    let (cs, msg) = start_combat(Enemy::basic("Void Wraith", 55, 10, 12), CharacterClass::Knight);
    assert_eq!(msg, "A wild Void Wraith appears!");
    assert_eq!(cs.phase, CombatPhase::PlayerTurn);
    assert!(cs.log.is_empty());
    assert_eq!(cs.action_names[2], "Lunge");
}

#[test]
fn winning_pays_gold() {
    let mut cs = CombatState::new(Enemy::basic("Shadow Wolf", 45, 8, 10), CharacterClass::Warrior);
    cs.phase = CombatPhase::Victory;
    let mut inv = Inventory::new();
    match resolve_combat(&cs, &mut inv) {
        CombatResolution::Victory(m) => assert_eq!(m, "Victory! +30 XP, +15 Gold"),
        _ => panic!("expected a victory"),
    }
    assert_eq!(inv.gold, 65);
}

#[test]
fn losing_names_the_enemy() {
    let mut cs = CombatState::new(Enemy::basic("Astral Serpent", 70, 12, 14), CharacterClass::Mage);
    cs.phase = CombatPhase::Defeat;
    let mut inv = Inventory::new();
    match resolve_combat(&cs, &mut inv) {
        CombatResolution::Defeat(m) => assert_eq!(m, "Slain by Astral Serpent..."),
        _ => panic!("expected a defeat"),
    }
    assert_eq!(inv.gold, 50);
}

#[test]
fn continuing_a_dialogue_closes_it_at_the_end() {
    let mut d = generic_dialogue(2);
    let mut steps = 0;
    while !continue_dialogue(&mut d) {
        steps += 1;
    }
    assert_eq!(steps, 4);
    assert_eq!(d.current(), "Watch for the shadows that move against the light.");
}

#[test]
fn decimal_rendering() {
    assert_eq!(int_to_string(0), "0");
    assert_eq!(int_to_string(1234), "1234");
    assert_eq!(int_to_string(-7), "-7");
    assert_eq!(int_to_string(i32::MIN), "-2147483648");
    assert_eq!(int_to_string(i32::MAX), "2147483647");
}
