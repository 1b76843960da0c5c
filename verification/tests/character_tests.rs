use astral_legends::character::{Character, CharacterClass, VisorState};

#[test]
fn class_names_and_myths() {
    assert_eq!(CharacterClass::Warrior.class_name(), "Warrior");
    assert_eq!(CharacterClass::Knight.class_name(), "Knight");
    assert_eq!(CharacterClass::Archer.class_name(), "Archer");
    assert_eq!(CharacterClass::Mage.class_name(), "Mage");
    assert_eq!(CharacterClass::Warrior.myth_name(), "Beowulf");
    assert_eq!(CharacterClass::Knight.myth_name(), "Gawain");
    assert_eq!(CharacterClass::Archer.myth_name(), "Arjuna");
    assert_eq!(CharacterClass::Mage.myth_name(), "Circe");
    assert!(CharacterClass::Mage.myth_origin().starts_with("From Homer's Odyssey."));
    assert!(CharacterClass::Warrior.myth_origin().contains("Grendel"));
}

#[test]
fn base_stats_match_the_class_table() {
    // Class, STR, AGI, INT, VIT, HP, Mana, shielded
    let table = [
        (CharacterClass::Warrior, 15, 8, 4, 14, 170, 62, true),
        (CharacterClass::Knight, 12, 6, 5, 16, 180, 65, true),
        (CharacterClass::Archer, 8, 16, 6, 10, 150, 68, false),
        (CharacterClass::Mage, 4, 8, 18, 8, 140, 104, false),
    ];
    for (class, str, agi, int, vit, hp, mana, shield) in table {
        let c = Character::new(class);
        assert_eq!(c.str, str);
        assert_eq!(c.agi, agi);
        assert_eq!(c.int, int);
        assert_eq!(c.vit, vit);
        assert_eq!(c.max_hp, hp);
        assert_eq!(c.hp, hp);
        assert_eq!(c.max_hp, 100 + c.vit * 5);
        assert_eq!(c.max_mana, mana);
        assert_eq!(c.mana, mana);
        assert_eq!(c.max_mana, 50 + c.int * 3);
        assert_eq!(c.shielded, shield);
        assert_eq!(c.block_reduces(), shield);
        assert_eq!(c.level, 1);
        assert_eq!(c.xp, 0);
        assert!(!c.charged);
        assert_eq!(c.visor_state, VisorState::Up);
        assert_eq!(c.class_name(), class.class_name());
    }
}

#[test]
fn only_a_knight_has_a_visor() {
    let mut w = Character::new(CharacterClass::Warrior);
    assert_eq!(w.toggle_visor(), None);
    assert_eq!(w.vit, 14);
    assert_eq!(w.visor_state, VisorState::Up);
}

#[test]
fn knight_visor_trade() {
    let mut k = Character::new(CharacterClass::Knight);
    assert_eq!(k.toggle_visor(), Some("Visor lowered: +VIT, +HP, -AGI"));
    assert_eq!(k.visor_state, VisorState::Down);
    assert_eq!(k.vit, 19);
    assert_eq!(k.max_hp, 195);
    assert_eq!(k.hp, 195);
    assert_eq!(k.agi, 4);
    assert_eq!(k.toggle_visor(), Some("Visor raised: -VIT, -HP, +AGI"));
    assert_eq!(k.visor_state, VisorState::Up);
    assert_eq!(k.vit, 16);
    assert_eq!(k.max_hp, 180);
    assert_eq!(k.hp, 180);
    assert_eq!(k.agi, 6);
}

#[test]
fn visor_round_trip_keeps_some_hit_points() {
    let mut k = Character::new(CharacterClass::Knight);
    k.hp = 100;
    k.toggle_visor();
    assert_eq!(k.hp, 115);
    k.toggle_visor();
    // Raising caps hit points at the lowered maximum only.
    assert_eq!(k.hp, 115);
    assert_eq!(k.agi, 6);
}

#[test]
fn visor_agility_never_below_one() {
    let mut k = Character::new(CharacterClass::Knight);
    k.agi = 2;
    k.toggle_visor();
    assert_eq!(k.agi, 1);
    k.toggle_visor();
    assert_eq!(k.agi, 3);
}

#[test]
fn attack_damage_halves_strength_and_doubles_when_charged() {
    let mut c = Character::new(CharacterClass::Warrior);
    assert_eq!(c.attack_damage(), 7);
    c.charged = true;
    assert_eq!(c.attack_damage(), 14);
    c.str = -5;
    c.charged = false;
    assert_eq!(c.attack_damage(), -2);
}

#[test]
fn shield_halves_damage_and_hp_stops_at_zero() {
    let mut w = Character::new(CharacterClass::Warrior);
    w.take_damage(21);
    assert_eq!(w.hp, 160);
    let mut a = Character::new(CharacterClass::Archer);
    a.take_damage(21);
    assert_eq!(a.hp, 129);
    a.take_damage(1000);
    assert_eq!(a.hp, 0);
    assert!(!a.is_alive());
}

#[test]
fn heal_and_restore_are_capped() {
    let mut m = Character::new(CharacterClass::Mage);
    m.hp = 100;
    m.heal(25);
    assert_eq!(m.hp, 125);
    m.heal(100);
    assert_eq!(m.hp, 140);
    m.mana = 10;
    m.restore_mana(50);
    assert_eq!(m.mana, 60);
    m.restore_mana(500);
    assert_eq!(m.mana, 104);
}

#[test]
fn use_mana_only_when_enough() {
    let mut m = Character::new(CharacterClass::Mage);
    m.mana = 12;
    assert!(!m.use_mana(15));
    assert_eq!(m.mana, 12);
    assert!(m.use_mana(12));
    assert_eq!(m.mana, 0);
}

#[test]
fn alive_means_positive_hp() {
    let mut c = Character::new(CharacterClass::Archer);
    assert!(c.is_alive());
    c.hp = 0;
    assert!(!c.is_alive());
    c.hp = 1;
    assert!(c.is_alive());
}
