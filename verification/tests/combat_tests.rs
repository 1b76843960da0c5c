use astral_legends::character::{Character, CharacterClass};
use astral_legends::combat::{action_names_for, CombatPhase, CombatState, Enemy, ParryGrade};

fn wolf() -> Enemy {
    Enemy::basic("Shadow Wolf", 45, 8, 10)
}

fn fight(class: CharacterClass) -> (CombatState, Character) {
    (CombatState::new(wolf(), class), Character::new(class))
}

fn act(cs: &mut CombatState, p: &mut Character, action: usize) {
    cs.selected_action = action;
    cs.execute_player_action(p);
}

#[test]
fn basic_enemy() {
    let e = wolf();
    assert_eq!(e.name, "Shadow Wolf");
    assert_eq!(e.hp, 45);
    assert_eq!(e.max_hp, 45);
    assert_eq!(e.str, 8);
    assert_eq!(e.agi, 10);
    assert_eq!(e.xp_reward, 30);
    assert_eq!(e.gold_reward, 15);
    assert!(!e.stunned);
    assert_eq!(e.attack_damage(), 6);
    assert!(e.is_alive());
}

#[test]
fn enemy_attack_damage_is_at_least_one() {
    let e = Enemy::basic("Wisp", 10, -10, 1);
    assert_eq!(e.attack_damage(), 1);
    let f = Enemy::basic("Fenrir Spawn", 90, 14, 15);
    assert_eq!(f.attack_damage(), 9);
}

#[test]
fn enemy_hp_stops_at_zero() {
    let mut e = wolf();
    e.take_damage(10);
    assert_eq!(e.hp, 35);
    e.take_damage(100);
    assert_eq!(e.hp, 0);
    assert!(!e.is_alive());
}

#[test]
fn action_names_are_the_same_for_every_class() {
    for class in [CharacterClass::Warrior, CharacterClass::Knight, CharacterClass::Archer, CharacterClass::Mage] {
        assert_eq!(action_names_for(class), ["Attack", "Charge", "Lunge", "Fireball"]);
    }
}

#[test]
fn new_combat_state() {
    let cs = CombatState::new(wolf(), CharacterClass::Mage);
    assert_eq!(cs.phase, CombatPhase::PlayerTurn);
    assert_eq!(cs.message, "Choose your action! (1-4)");
    assert_eq!(cs.action_names[3], "Fireball");
    assert_eq!(cs.selected_action, 0);
    assert_eq!(cs.pending_damage, 0);
    assert!(!cs.parry_window);
    assert_eq!(cs.turn_count, 0);
    assert!(cs.log.is_empty());
}

#[test]
fn attack_and_charge() {
    let (mut cs, mut p) = fight(CharacterClass::Warrior);
    act(&mut cs, &mut p, 0);
    assert_eq!(cs.message, "Attack deals 7 damage!");
    assert_eq!(cs.enemy.hp, 38);
    assert_eq!(cs.phase, CombatPhase::EnemyTurn);
    assert_eq!(cs.log, vec!["Attack deals 7 damage!".to_string()]);

    act(&mut cs, &mut p, 1);
    assert_eq!(cs.message, "Power charged! Next attack deals 2x damage.");
    assert!(p.charged);
    act(&mut cs, &mut p, 0);
    assert_eq!(cs.message, "Attack deals 14 (Charged!) damage!");
    assert_eq!(cs.enemy.hp, 24);
    assert!(!p.charged);
    assert_eq!(p.mana, 62);
}

#[test]
fn charge_survives_the_enemy_turn() {
    let (mut cs, mut p) = fight(CharacterClass::Archer);
    act(&mut cs, &mut p, 1);
    cs.execute_enemy_action(&p, false);
    cs.attempt_parry(&mut p, ParryGrade::Miss);
    assert!(p.charged);
    act(&mut cs, &mut p, 0);
    assert_eq!(cs.message, "Attack deals 8 (Charged!) damage!");
    assert_eq!(cs.enemy.hp, 37);
    assert!(!p.charged);
}

#[test]
fn lunge() {
    let (mut cs, mut p) = fight(CharacterClass::Warrior);
    act(&mut cs, &mut p, 2);
    assert_eq!(cs.message, "Lunge deals 12 damage!");
    assert_eq!(cs.enemy.hp, 33);
    assert_eq!(p.mana, 52);
    let (mut cs2, mut m) = fight(CharacterClass::Mage);
    act(&mut cs2, &mut m, 2);
    assert_eq!(cs2.message, "Lunge deals 7 damage!");
}

#[test]
fn fireball() {
    let (mut cs, mut p) = fight(CharacterClass::Mage);
    act(&mut cs, &mut p, 3);
    assert_eq!(cs.message, "Fireball scorches for 12 damage!");
    assert_eq!(cs.enemy.hp, 33);
    assert_eq!(p.mana, 89);
    let (mut cs2, mut w) = fight(CharacterClass::Warrior);
    act(&mut cs2, &mut w, 3);
    assert_eq!(cs2.message, "Fireball scorches for 5 damage!");
    assert_eq!(w.mana, 47);
}

#[test]
fn refused_action_changes_only_the_message() {
    let (mut cs, mut p) = fight(CharacterClass::Warrior);
    p.mana = 9;
    act(&mut cs, &mut p, 2);
    assert_eq!(cs.message, "Not enough mana for Lunge! (needs 10)");
    assert_eq!(cs.phase, CombatPhase::PlayerTurn);
    assert_eq!(cs.enemy.hp, 45);
    assert_eq!(p.mana, 9);
    assert!(cs.log.is_empty());
    p.mana = 14;
    act(&mut cs, &mut p, 3);
    assert_eq!(cs.message, "Not enough mana for Fireball! (needs 15)");
    assert_eq!(p.mana, 14);
}

#[test]
fn unknown_action_does_nothing() {
    let (mut cs, mut p) = fight(CharacterClass::Archer);
    act(&mut cs, &mut p, 7);
    assert_eq!(cs.message, "Choose your action! (1-4)");
    assert_eq!(cs.phase, CombatPhase::PlayerTurn);
    assert!(cs.log.is_empty());
}

#[test]
fn killing_blow_wins() {
    let (mut cs, mut p) = fight(CharacterClass::Warrior);
    cs.enemy.hp = 5;
    act(&mut cs, &mut p, 0);
    assert_eq!(cs.phase, CombatPhase::Victory);
    assert_eq!(cs.message, "Shadow Wolf defeated!");
    assert_eq!(cs.log, vec!["Attack deals 7 damage!".to_string()]);
    assert_eq!(cs.enemy.hp, 0);
}

#[test]
fn choose_action_reports_the_end_of_the_fight() {
    let (mut cs, mut p) = fight(CharacterClass::Warrior);
    assert!(!cs.choose_action(&mut p, 0));
    assert_eq!(cs.phase, CombatPhase::EnemyTurn);
    // Not the player's turn: only the selection changes.
    assert!(!cs.choose_action(&mut p, 3));
    assert_eq!(cs.selected_action, 3);
    assert_eq!(cs.enemy.hp, 38);
    cs.phase = CombatPhase::PlayerTurn;
    cs.enemy.hp = 1;
    assert!(cs.choose_action(&mut p, 0));
    assert_eq!(cs.phase, CombatPhase::Victory);
}

#[test]
fn fleeing() {
    let (mut cs, _) = fight(CharacterClass::Archer);
    assert!(!cs.attempt_flee(false));
    assert_eq!(cs.phase, CombatPhase::EnemyTurn);
    assert_eq!(cs.message, "Failed to flee! Enemy attacks!");
    assert!(cs.attempt_flee(true));
    assert_eq!(cs.phase, CombatPhase::Victory);
    assert_eq!(cs.message, "Fled successfully!");
}

#[test]
fn stunned_enemy_skips_one_turn() {
    let (mut cs, p) = fight(CharacterClass::Archer);
    cs.enemy.stunned = true;
    cs.phase = CombatPhase::EnemyTurn;
    cs.execute_enemy_action(&p, false);
    assert_eq!(cs.message, "Shadow Wolf is stunned -- skips turn!");
    assert_eq!(cs.log, vec!["Shadow Wolf is stunned -- skips turn!".to_string()]);
    assert!(!cs.enemy.stunned);
    assert_eq!(cs.phase, CombatPhase::PlayerTurn);
    assert_eq!(cs.turn_count, 1);
    assert!(!cs.parry_window);
}

#[test]
fn dodged_attack() {
    let (mut cs, p) = fight(CharacterClass::Archer);
    cs.execute_enemy_action(&p, true);
    assert_eq!(cs.message, "You dodge Shadow Wolf's attack!");
    assert_eq!(cs.phase, CombatPhase::PlayerTurn);
    assert_eq!(cs.turn_count, 1);
    assert_eq!(cs.log.len(), 1);
}

#[test]
fn enemy_attack_opens_the_parry_window() {
    let (mut cs, p) = fight(CharacterClass::Archer);
    cs.execute_enemy_action(&p, false);
    assert_eq!(cs.pending_damage, 6);
    assert!(cs.parry_window);
    assert_eq!(cs.phase, CombatPhase::ParryPhase);
    assert_eq!(cs.message, "Shadow Wolf attacks! Watch the circle and press SPACE at the right time!");
    assert!(cs.log.is_empty());
    let (mut cs2, w) = fight(CharacterClass::Warrior);
    cs2.execute_enemy_action(&w, false);
    assert_eq!(cs2.pending_damage, 3);
}

#[test]
fn perfect_parry_stuns_and_happens_once() {
    let (mut cs, mut p) = fight(CharacterClass::Archer);
    cs.execute_enemy_action(&p, false);
    cs.attempt_parry(&mut p, ParryGrade::Perfect);
    assert_eq!(cs.message, "Perfect Parry! Enemy is stunned!");
    assert!(cs.enemy.stunned);
    assert_eq!(p.hp, 150);
    assert_eq!(cs.phase, CombatPhase::PlayerTurn);
    assert_eq!(cs.turn_count, 1);
    assert!(!cs.parry_window);
    cs.attempt_parry(&mut p, ParryGrade::Miss);
    cs.parry_expired(&mut p);
    assert_eq!(p.hp, 150);
    assert_eq!(cs.turn_count, 1);
    assert_eq!(cs.log.len(), 1);
}

#[test]
fn good_parry_takes_thirty_percent() {
    let (mut cs, mut p) = fight(CharacterClass::Archer);
    cs.execute_enemy_action(&p, false);
    cs.attempt_parry(&mut p, ParryGrade::Good);
    assert_eq!(cs.message, "Good parry! Reduced damage taken.");
    assert_eq!(p.hp, 149);
}

#[test]
fn good_parry_matches_float_rounding() {
    for pending in 0..2000 {
        let (mut cs, mut p) = fight(CharacterClass::Archer);
        p.hp = 100_000;
        cs.parry_window = true;
        cs.pending_damage = pending;
        cs.attempt_parry(&mut p, ParryGrade::Good);
        let expected = (pending as f32 * 0.3) as i32;
        assert_eq!(p.hp, 100_000 - expected, "pending {}", pending);
    }
}

#[test]
fn missed_parry_and_defeat() {
    let (mut cs, mut p) = fight(CharacterClass::Archer);
    cs.execute_enemy_action(&p, false);
    cs.attempt_parry(&mut p, ParryGrade::Miss);
    assert_eq!(cs.message, "Parry failed! Took 6 damage.");
    assert_eq!(p.hp, 144);
    cs.phase = CombatPhase::EnemyTurn;
    cs.execute_enemy_action(&p, false);
    p.hp = 3;
    cs.attempt_parry(&mut p, ParryGrade::Miss);
    assert_eq!(p.hp, 0);
    assert_eq!(cs.phase, CombatPhase::Defeat);
    assert_eq!(cs.turn_count, 1);
}

#[test]
fn shield_blocks_half_of_a_blow() {
    let (mut cs, mut w) = fight(CharacterClass::Warrior);
    cs.execute_enemy_action(&w, false);
    cs.attempt_parry(&mut w, ParryGrade::Miss);
    assert_eq!(cs.message, "Parry failed! Took 3 damage.");
    assert_eq!(w.hp, 167);
}

#[test]
fn shielded_warrior_hit_by_fenrir_spawn() {
    let mut cs = CombatState::new(Enemy::basic("Fenrir Spawn", 90, 14, 15), CharacterClass::Warrior);
    let mut w = Character::new(CharacterClass::Warrior);
    cs.execute_enemy_action(&w, false);
    assert_eq!(cs.pending_damage, 4);
    cs.parry_expired(&mut w);
    assert_eq!(w.hp, 166);
    assert_eq!(cs.message, "Too slow! Fenrir Spawn hits for 4 damage.");
}

#[test]
fn too_slow_parry() {
    let (mut cs, mut p) = fight(CharacterClass::Mage);
    cs.parry_expired(&mut p);
    assert_eq!(p.hp, 140);
    assert!(cs.log.is_empty());
    cs.execute_enemy_action(&p, false);
    cs.parry_expired(&mut p);
    assert_eq!(cs.message, "Too slow! Shadow Wolf hits for 6 damage.");
    assert_eq!(p.hp, 134);
    assert_eq!(cs.phase, CombatPhase::PlayerTurn);
    assert_eq!(cs.turn_count, 1);
    assert!(!cs.parry_window);
}
