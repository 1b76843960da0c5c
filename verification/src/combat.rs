//! Turn-based combat between a champion and one enemy: the enemy's
//! statistics, the class actions, the enemy's turn and the parry.
use vstd::prelude::*;

use crate::character::{Character, CharacterClass};
use crate::num::{imax, tdiv};
use crate::text::{decimal, opt_text, text_with_name, text_with_number, texts};

verus! {

/// An enemy met in the world.
#[derive(Clone, Debug)]
pub struct Enemy {
    pub name: String,
    pub hp: i32,
    pub max_hp: i32,
    pub str: i32,
    pub agi: i32,
    pub xp_reward: i32,
    pub gold_reward: u32,
    pub stunned: bool,
}

impl Enemy {
    /// The enemy after taking `amount` damage: hit points never fall below zero.
    pub open spec fn damaged(self, amount: int) -> Enemy {
        Enemy { hp: imax(self.hp - amount, 0) as i32, ..self }
    }

    /// Whether taking `amount` damage stays within `i32`.
    pub open spec fn damage_fits(self, amount: int) -> bool {
        i32::MIN <= self.hp - amount <= i32::MAX
    }

    pub open spec fn spec_attack_damage(self) -> int {
        imax(tdiv(self.str as int, 2) + 2, 1)
    }

    /// An enemy at full health, worth 30 XP and 15 gold.
    pub fn basic(name: &str, hp: i32, str: i32, agi: i32) -> (e: Self)
        ensures
            e.name@ == name@,
            e.hp == hp,
            e.max_hp == hp,
            e.str == str,
            e.agi == agi,
            e.xp_reward == 30,
            e.gold_reward == 15,
            !e.stunned,
    {
        Enemy {
            name: String::from_str(name),
            hp,
            max_hp: hp,
            str,
            agi,
            xp_reward: 30,
            gold_reward: 15,
            stunned: false,
        }
    }

    /// Half the strength plus two, and at least one.
    pub fn attack_damage(&self) -> (dmg: i32)
        ensures
            dmg == self.spec_attack_damage(),
    {
        let d = self.str / 2 + 2;
        if d > 1 {
            d
        } else {
            1
        }
    }

    pub fn take_damage(&mut self, amount: i32)
        requires
            old(self).damage_fits(amount as int),
        ensures
            *final(self) == old(self).damaged(amount as int),
    {
        let left = self.hp - amount;
        self.hp = if left > 0 { left } else { 0 };
    }

    pub fn is_alive(&self) -> (alive: bool)
        ensures
            alive == (self.hp > 0),
    {
        self.hp > 0
    }

    /// A copy of this enemy.
    pub(crate) fn copy(&self) -> (e: Self)
        ensures
            e == *self,
    {
        Enemy {
            name: self.name.clone(),
            hp: self.hp,
            max_hp: self.max_hp,
            str: self.str,
            agi: self.agi,
            xp_reward: self.xp_reward,
            gold_reward: self.gold_reward,
            stunned: self.stunned,
        }
    }
}

/// Whose move it is, or how the fight ended.
#[derive(Clone, Copy, PartialEq, Eq, Structural, Debug)]
pub enum CombatPhase {
    PlayerTurn,
    EnemyTurn,
    ParryPhase,
    Victory,
    Defeat,
}

/// How well the player timed a parry.
#[derive(Clone, Copy, PartialEq, Eq, Structural, Debug)]
pub enum ParryGrade {
    /// The enemy is stunned and no damage is taken.
    Perfect,
    /// Thirty percent of the pending damage is taken.
    Good,
    /// The full pending damage is taken.
    Miss,
}

/// The names of the four combat actions, in key order; every champion has the same four.
pub open spec fn spec_action_names() -> Seq<Seq<char>> {
    seq!["Attack"@, "Charge"@, "Lunge"@, "Fireball"@]
}

pub open spec fn name_views(names: [&'static str; 4]) -> Seq<Seq<char>> {
    names@.map_values(|s: &'static str| s@)
}

/// The names of the combat actions on keys 1 to 4: Attack, Charge, Lunge and
/// Fireball, for every class.
pub fn action_names_for(class: CharacterClass) -> (names: [&'static str; 4])
    ensures
        name_views(names) == spec_action_names(),
{
    let _ = class;
    let names = ["Attack", "Charge", "Lunge", "Fireball"];
    proof {
        assert(name_views(names) =~= spec_action_names());
    }
    names
}

/// The note added to an attack that consumed a charge.
pub open spec fn charged_note(charged: bool) -> Seq<char> {
    if charged {
        " (Charged!)"@
    } else {
        ""@
    }
}

/// The mana an action costs: Lunge 10, Fireball 15, the others nothing.
pub open spec fn action_cost(action: usize) -> int {
    if action == 2 {
        10
    } else if action == 3 {
        15
    } else {
        0
    }
}

/// The message shown when an action is refused for want of mana.
pub open spec fn refusal_text(action: usize) -> Seq<char> {
    if action == 2 {
        "Not enough mana for Lunge! (needs 10)"@
    } else {
        "Not enough mana for Fireball! (needs 15)"@
    }
}

/// Whether an action is refused: it exists, costs mana, and the player has too little.
pub open spec fn is_refused(action: usize, p: Character) -> bool {
    action < 4 && action_cost(action) > 0 && p.mana < action_cost(action)
}

/// The player with `cost` mana spent.
pub open spec fn spent(p: Character, cost: int) -> Character {
    Character { mana: (p.mana - cost) as i32, ..p }
}

/// The damage of a Lunge: half the strength plus five.
pub open spec fn lunge_damage(p: Character) -> int {
    tdiv(p.str as int, 2) + 5
}

/// The damage of a Fireball: half the intelligence plus three.
pub open spec fn fireball_damage(p: Character) -> int {
    tdiv(p.int as int, 2) + 3
}

/// An action: the player and the enemy afterwards, and the report of what
/// happened (none when nothing happened). Attack deals the basic attack
/// damage, doubled and spending the charge when charged; Charge doubles the
/// next attack; Lunge (10 mana) and Fireball (15 mana) deal their damage.
pub open spec fn player_action(action: usize, p: Character, e: Enemy) -> (Character, Enemy, Option<Seq<char>>) {
    if action == 0 {
        let dmg = p.spec_attack_damage();
        (Character { charged: false, ..p }, e.damaged(dmg),
            Some("Attack deals "@ + decimal(dmg) + charged_note(p.charged) + " damage!"@))
    } else if action == 1 {
        (Character { charged: true, ..p }, e, Some("Power charged! Next attack deals 2x damage."@))
    } else if action == 2 {
        if p.mana < 10 {
            (p, e, None)
        } else {
            let dmg = lunge_damage(p);
            (spent(p, 10), e.damaged(dmg), Some("Lunge deals "@ + decimal(dmg) + " damage!"@))
        }
    } else if action == 3 {
        if p.mana < 15 {
            (p, e, None)
        } else {
            let dmg = fireball_damage(p);
            (spent(p, 15), e.damaged(dmg), Some("Fireball scorches for "@ + decimal(dmg) + " damage!"@))
        }
    } else {
        (p, e, None)
    }
}

/// Whether the arithmetic of an action stays within `i32`.
pub open spec fn action_fits(action: usize, p: Character, e: Enemy) -> bool {
    if action == 0 {
        e.damage_fits(p.spec_attack_damage())
    } else if action == 2 {
        p.mana >= 10 ==> e.damage_fits(lunge_damage(p))
    } else if action == 3 {
        p.mana >= 15 ==> e.damage_fits(fireball_damage(p))
    } else {
        true
    }
}

/// The phase after the selected action has been carried out.
pub open spec fn phase_after_action(pre: CombatState, p: Character) -> CombatPhase {
    let r = player_action(pre.selected_action, p, pre.enemy);
    match r.2 {
        None => pre.phase,
        Some(_) => if r.1.hp <= 0 { CombatPhase::Victory } else { CombatPhase::EnemyTurn },
    }
}

/// `post` and `q` are the fight and the player after the player's selected
/// action, carried out from `pre` and `p`: the class action changes the player
/// and the enemy; an action that happened is logged and hands the turn to the
/// enemy, or wins the fight when the enemy has no hit points left; a refused
/// action only explains the refusal.
pub open spec fn player_action_done(pre: CombatState, p: Character, post: CombatState, q: Character) -> bool {
    let r = player_action(pre.selected_action, p, pre.enemy);
    &&& q == r.0
    &&& post.enemy == r.1
    &&& post.selected_action == pre.selected_action
    &&& post.action_names == pre.action_names
    &&& post.pending_damage == pre.pending_damage
    &&& post.parry_window == pre.parry_window
    &&& post.turn_count == pre.turn_count
    &&& post.phase == phase_after_action(pre, p)
    &&& match r.2 {
        None => {
            &&& post.log == pre.log
            &&& post.message@ == if is_refused(pre.selected_action, p) {
                refusal_text(pre.selected_action)
            } else {
                pre.message@
            }
        },
        Some(m) => {
            &&& texts(post.log@) == texts(pre.log@).push(m)
            &&& post.message@ == if r.1.hp <= 0 { r.1.name@ + " defeated!"@ } else { m }
        },
    }
}

/// The player after the enemy's pending blow, as the parry graded it.
pub open spec fn after_parry(grade: ParryGrade, p: Character, pending: int) -> Character {
    match grade {
        ParryGrade::Perfect => p,
        ParryGrade::Good => p.struck(tdiv(pending * 3, 10)),
        ParryGrade::Miss => p.struck(pending),
    }
}

/// Whether the arithmetic of a graded parry stays within `i32`.
pub open spec fn parry_fits(grade: ParryGrade, p: Character, pending: int) -> bool {
    match grade {
        ParryGrade::Perfect => true,
        ParryGrade::Good => p.strike_fits(tdiv(pending * 3, 10)),
        ParryGrade::Miss => p.strike_fits(pending),
    }
}

/// The message of a graded parry.
pub open spec fn parry_text(grade: ParryGrade, pending: int) -> Seq<char> {
    match grade {
        ParryGrade::Perfect => "Perfect Parry! Enemy is stunned!"@,
        ParryGrade::Good => "Good parry! Reduced damage taken."@,
        ParryGrade::Miss => "Parry failed! Took "@ + decimal(pending) + " damage."@,
    }
}

/// The damage the enemy's attack will deal once the parry is resolved: a
/// shield halves it.
pub open spec fn pending_for(e: Enemy, p: Character) -> int {
    if p.shielded {
        tdiv(e.spec_attack_damage(), 2)
    } else {
        e.spec_attack_damage()
    }
}

/// An action the player cannot pay for changes neither the player nor the
/// enemy and reports nothing; an existing action that is not refused always
/// reports what happened.
pub proof fn lemma_refused_action_changes_nothing(action: usize, p: Character, e: Enemy)
    ensures
        is_refused(action, p) ==> player_action(action, p, e) == (p, e, None::<Seq<char>>),
        (player_action(action, p, e).2 is None) <==> (action >= 4 || is_refused(action, p)),
        action >= 4 ==> player_action(action, p, e) == (p, e, None::<Seq<char>>),
{
}

/// No action takes the enemy's hit points below zero.
pub proof fn lemma_enemy_hp_never_negative(action: usize, p: Character, e: Enemy)
    requires
        e.hp >= 0,
        action_fits(action, p, e),
    ensures
        player_action(action, p, e).1.hp >= 0,
{
}

/// No action spends mana the player does not have: mana that starts at zero
/// or more stays at zero or more, and an action spends exactly its cost or nothing.
pub proof fn lemma_mana_never_negative(action: usize, p: Character, e: Enemy)
    requires
        p.mana >= 0,
    ensures
        player_action(action, p, e).0.mana >= 0,
        player_action(action, p, e).0.mana == p.mana - action_cost(action)
            || player_action(action, p, e).0.mana == p.mana,
{
}

/// Charge doubles the next Attack: after a Charge, and whatever the enemy's
/// turns did to the player's hit points (the only thing they change), an
/// Attack deals twice half the strength, spends the charge, and neither
/// action costs mana.
pub proof fn lemma_charge_then_attack(p: Character, e: Enemy, hp: i32, e2: Enemy)
    requires
        e2.damage_fits(tdiv(p.str as int, 2) * 2),
    ensures
        ({
            let charged = player_action(1, p, e).0;
            let between = Character { hp: hp, ..charged };
            let r = player_action(0, between, e2);
            &&& charged.charged
            &&& r.1.hp == imax(e2.hp - 2 * tdiv(p.str as int, 2), 0)
            &&& !r.0.charged
            &&& r.0.mana == p.mana
            &&& r.2 == Some("Attack deals "@ + decimal(2 * tdiv(p.str as int, 2)) + " (Charged!)"@ + " damage!"@)
        }),
{
}

/// The enemy's blow, whatever the parry, changes only the player's hit points.
pub proof fn lemma_parry_changes_only_hp(grade: ParryGrade, p: Character, pending: int)
    ensures
        after_parry(grade, p, pending) == (Character { hp: after_parry(grade, p, pending).hp, ..p }),
{
}

/// A perfect parry lets no damage through; a good one lets through no more
/// than a miss does, when the pending damage is not negative.
pub proof fn lemma_parry_grades(p: Character, pending: int)
    requires
        pending >= 0,
    ensures
        after_parry(ParryGrade::Perfect, p, pending) == p,
        after_parry(ParryGrade::Good, p, pending).hp >= after_parry(ParryGrade::Miss, p, pending).hp,
        after_parry(ParryGrade::Miss, p, pending).hp >= 0,
{
}

/// What each action does, in terms of the player's statistics: Attack deals
/// half the strength (twice that when charged) and spends the charge;
/// Charge sets the charge; Lunge spends 10 mana for half the strength plus
/// five; Fireball spends 15 mana for half the intelligence plus three. Only
/// the enemy's hit points change, and only by that damage (never below zero);
/// the player changes only in mana and charge.
pub proof fn lemma_action_effects(action: usize, p: Character, e: Enemy)
    requires
        action_fits(action, p, e),
    ensures
        action == 0 ==> player_action(action, p, e).1.hp == imax(
            e.hp - (if p.charged { 2 * tdiv(p.str as int, 2) } else { tdiv(p.str as int, 2) }),
            0,
        ),
        action == 0 ==> player_action(action, p, e).0 == (Character { charged: false, ..p }),
        action == 0 ==> player_action(action, p, e).2 == Some(
            "Attack deals "@ + decimal(if p.charged { 2 * tdiv(p.str as int, 2) } else { tdiv(p.str as int, 2) })
                + (if p.charged { " (Charged!)"@ } else { ""@ }) + " damage!"@,
        ),
        action == 1 ==> player_action(action, p, e).0 == (Character { charged: true, ..p }),
        action == 1 ==> player_action(action, p, e).1 == e,
        action == 2 && p.mana >= 10 ==> player_action(action, p, e).1.hp == imax(e.hp - (tdiv(p.str as int, 2) + 5), 0),
        action == 2 && p.mana >= 10 ==> player_action(action, p, e).0 == (Character { mana: (p.mana - 10) as i32, ..p }),
        action == 2 && p.mana >= 10 ==> player_action(action, p, e).2 == Some(
            "Lunge deals "@ + decimal(tdiv(p.str as int, 2) + 5) + " damage!"@,
        ),
        action == 3 && p.mana >= 15 ==> player_action(action, p, e).1.hp == imax(e.hp - (tdiv(p.int as int, 2) + 3), 0),
        action == 3 && p.mana >= 15 ==> player_action(action, p, e).0 == (Character { mana: (p.mana - 15) as i32, ..p }),
        action == 3 && p.mana >= 15 ==> player_action(action, p, e).2 == Some(
            "Fireball scorches for "@ + decimal(tdiv(p.int as int, 2) + 3) + " damage!"@,
        ),
        player_action(action, p, e).1 == (Enemy { hp: player_action(action, p, e).1.hp, ..e }),
{
}

/// Lunge damage depends on strength alone, Fireball damage on intelligence
/// alone: two players with the same strength (or intelligence) and enough
/// mana leave the same enemy with the same hit points, whatever their other
/// statistics.
pub proof fn lemma_action_damage_depends_on_one_stat(p: Character, q: Character, e: Enemy)
    ensures
        p.str == q.str && p.mana >= 10 && q.mana >= 10 ==> player_action(2, p, e).1 == player_action(2, q, e).1,
        p.int == q.int && p.mana >= 15 && q.mana >= 15 ==> player_action(3, p, e).1 == player_action(3, q, e).1,
        p.str == q.str && p.charged == q.charged ==> player_action(0, p, e).1 == player_action(0, q, e).1,
{
}

/// The blow an enemy announces is half its strength plus two (at least one),
/// halved by a shield; it depends on nothing else about the player than
/// whether the player is shielded.
pub proof fn lemma_pending_damage(e: Enemy, p: Character, q: Character)
    ensures
        ({
            let blow = imax(tdiv(e.str as int, 2) + 2, 1);
            pending_for(e, p) == if p.shielded { tdiv(blow, 2) } else { blow }
        }),
        p.shielded == q.shielded ==> pending_for(e, p) == pending_for(e, q),
{
}

/// The blow a parry lets through: none for a perfect parry, thirty percent
/// of the pending damage (rounded toward zero) for a good one, all of it for
/// a miss; hit points never fall below zero and nothing else changes.
pub proof fn lemma_parry_blow(grade: ParryGrade, p: Character, pending: int)
    ensures
        grade == ParryGrade::Perfect ==> after_parry(grade, p, pending) == p,
        grade == ParryGrade::Good ==> after_parry(grade, p, pending) == (Character {
            hp: imax(p.hp - tdiv(3 * pending, 10), 0) as i32,
            ..p
        }),
        grade == ParryGrade::Miss ==> after_parry(grade, p, pending) == (Character {
            hp: imax(p.hp - pending, 0) as i32,
            ..p
        }),
{
}

/// The enemy's blow lands on the player: hit points fall by `amount`, and
/// never below zero. A shield has already halved the blow when it was
/// announced, so it is not halved again.
fn strike(player: &mut Character, amount: i32)
    requires
        old(player).strike_fits(amount as int),
    ensures
        *final(player) == old(player).struck(amount as int),
{
    let left = player.hp - amount;
    player.hp = if left > 0 { left } else { 0 };
}

/// The state of one fight. The timing of the parry minigame is kept by the
/// caller; this state records whether the parry window is open.
pub struct CombatState {
    pub enemy: Enemy,
    pub phase: CombatPhase,
    pub selected_action: usize,
    pub action_names: [&'static str; 4],
    pub pending_damage: i32,
    pub message: String,
    pub parry_window: bool,
    pub turn_count: u32,
    pub log: Vec<String>,
}

impl CombatState {
    pub fn new(enemy: Enemy, class: CharacterClass) -> (cs: Self)
        ensures
            cs.enemy == enemy,
            cs.phase == CombatPhase::PlayerTurn,
            cs.selected_action == 0,
            name_views(cs.action_names) == spec_action_names(),
            cs.pending_damage == 0,
            cs.message@ == "Choose your action! (1-4)"@,
            !cs.parry_window,
            cs.turn_count == 0,
            cs.log@.len() == 0,
    {
        CombatState {
            enemy,
            phase: CombatPhase::PlayerTurn,
            selected_action: 0,
            action_names: action_names_for(class),
            pending_damage: 0,
            message: String::from_str("Choose your action! (1-4)"),
            parry_window: false,
            turn_count: 0,
            log: Vec::new(),
        }
    }

    /// Everything but the enemy and the message is as in `other`.
    pub open spec fn same_frame(self, other: CombatState) -> bool {
        &&& self.phase == other.phase
        &&& self.selected_action == other.selected_action
        &&& self.action_names == other.action_names
        &&& self.pending_damage == other.pending_damage
        &&& self.parry_window == other.parry_window
        &&& self.turn_count == other.turn_count
        &&& self.log == other.log
    }

    fn perform_action(&mut self, player: &mut Character) -> (report: Option<String>)
        requires
            action_fits(old(self).selected_action, *old(player), old(self).enemy),
        ensures
            ({
                let r = player_action(old(self).selected_action, *old(player), old(self).enemy);
                &&& *final(player) == r.0
                &&& final(self).enemy == r.1
                &&& opt_text(report) == r.2
            }),
            final(self).same_frame(*old(self)),
            final(self).message@ == if is_refused(old(self).selected_action, *old(player)) {
                refusal_text(old(self).selected_action)
            } else {
                old(self).message@
            },
    {
        match self.selected_action {
            0 => {
                let dmg = player.attack_damage();
                self.enemy.take_damage(dmg);
                let extra = if player.charged { " (Charged!)" } else { "" };
                player.charged = false;
                let mut m = text_with_number("Attack deals ", dmg, extra);
                m.append(" damage!");
                Some(m)
            },
            1 => {
                player.charged = true;
                Some(String::from_str("Power charged! Next attack deals 2x damage."))
            },
            2 => {
                if !player.use_mana(10) {
                    self.message = String::from_str("Not enough mana for Lunge! (needs 10)");
                    return None;
                }
                let dmg = player.str / 2 + 5;
                self.enemy.take_damage(dmg);
                Some(text_with_number("Lunge deals ", dmg, " damage!"))
            },
            3 => {
                if !player.use_mana(15) {
                    self.message = String::from_str("Not enough mana for Fireball! (needs 15)");
                    return None;
                }
                let dmg = player.int / 2 + 3;
                self.enemy.take_damage(dmg);
                Some(text_with_number("Fireball scorches for ", dmg, " damage!"))
            },
            _ => None,
        }
    }

    /// Carries out the selected action.
    pub fn execute_player_action(&mut self, player: &mut Character)
        requires
            action_fits(old(self).selected_action, *old(player), old(self).enemy),
        ensures
            player_action_done(*old(self), *old(player), *final(self), *final(player)),
    {
        let ghost pre = *self;
        let result = self.perform_action(player);
        if let Some(msg) = result {
            let ghost before_log = self.log@;
            self.log.push(msg.clone());
            proof {
                assert(texts(self.log@) =~= texts(before_log).push(msg@));
            }
            if !self.enemy.is_alive() {
                self.message = text_with_name("", &self.enemy.name, " defeated!");
                proof {
                    reveal_strlit("");
                    assert(self.message@ =~= self.enemy.name@ + " defeated!"@);
                }
                self.phase = CombatPhase::Victory;
                return;
            }
            self.message = msg;
            self.phase = CombatPhase::EnemyTurn;
        }
    }

    /// The enemy's turn. A stunned enemy loses its turn and recovers; an
    /// attack the player dodged misses; otherwise the attack is announced and
    /// the parry window opens, with the damage it will deal held pending.
    pub fn execute_enemy_action(&mut self, player: &Character, dodged: bool)
        requires
            old(self).enemy.stunned || dodged ==> old(self).turn_count < u32::MAX,
        ensures
            final(self).selected_action == old(self).selected_action,
            final(self).action_names == old(self).action_names,
            old(self).enemy.stunned ==> {
                &&& final(self).enemy == (Enemy { stunned: false, ..old(self).enemy })
                &&& final(self).message@ == old(self).enemy.name@ + " is stunned -- skips turn!"@
                &&& texts(final(self).log@) == texts(old(self).log@).push(final(self).message@)
                &&& final(self).phase == CombatPhase::PlayerTurn
                &&& final(self).turn_count == old(self).turn_count + 1
                &&& final(self).pending_damage == old(self).pending_damage
                &&& final(self).parry_window == old(self).parry_window
            },
            !old(self).enemy.stunned && dodged ==> {
                &&& final(self).enemy == old(self).enemy
                &&& final(self).message@ == "You dodge "@ + old(self).enemy.name@ + "'s attack!"@
                &&& texts(final(self).log@) == texts(old(self).log@).push(final(self).message@)
                &&& final(self).phase == CombatPhase::PlayerTurn
                &&& final(self).turn_count == old(self).turn_count + 1
                &&& final(self).pending_damage == old(self).pending_damage
                &&& final(self).parry_window == old(self).parry_window
            },
            !old(self).enemy.stunned && !dodged ==> {
                &&& final(self).enemy == old(self).enemy
                &&& final(self).pending_damage == pending_for(old(self).enemy, *player)
                &&& final(self).parry_window
                &&& final(self).message@ == old(self).enemy.name@
                    + " attacks! Watch the circle and press SPACE at the right time!"@
                &&& final(self).log == old(self).log
                &&& final(self).phase == CombatPhase::ParryPhase
                &&& final(self).turn_count == old(self).turn_count
            },
    {
        if self.enemy.stunned {
            self.enemy.stunned = false;
            let msg = text_with_name("", &self.enemy.name, " is stunned -- skips turn!");
            proof {
                reveal_strlit("");
                assert(msg@ =~= self.enemy.name@ + " is stunned -- skips turn!"@);
            }
            let ghost before_log = self.log@;
            self.log.push(msg.clone());
            proof {
                assert(texts(self.log@) =~= texts(before_log).push(msg@));
            }
            self.message = msg;
            self.phase = CombatPhase::PlayerTurn;
            self.turn_count = self.turn_count + 1;
            return;
        }
        if dodged {
            let msg = text_with_name("You dodge ", &self.enemy.name, "'s attack!");
            let ghost before_log = self.log@;
            self.log.push(msg.clone());
            proof {
                assert(texts(self.log@) =~= texts(before_log).push(msg@));
            }
            self.message = msg;
            self.phase = CombatPhase::PlayerTurn;
            self.turn_count = self.turn_count + 1;
            return;
        }
        self.pending_damage = self.enemy.attack_damage();
        if player.block_reduces() {
            self.pending_damage = self.pending_damage / 2;
        }
        self.parry_window = true;
        self.message = text_with_name("", &self.enemy.name, " attacks! Watch the circle and press SPACE at the right time!");
        proof {
            reveal_strlit("");
            assert(self.message@ =~= self.enemy.name@ + " attacks! Watch the circle and press SPACE at the right time!"@);
        }
        self.phase = CombatPhase::ParryPhase;
    }

    /// Resolves the open parry window with the grade of the player's timing.
    /// A perfect parry stuns the enemy; a good one lets thirty percent of the
    /// pending damage (rounded toward zero) through; a miss lets all of it
    /// through. The fight is lost when the player has no hit points left, and
    /// otherwise the turn passes to the player. With no open window nothing happens.
    pub fn attempt_parry(&mut self, player: &mut Character, grade: ParryGrade)
        requires
            old(self).parry_window ==> parry_fits(grade, *old(player), old(self).pending_damage as int),
            old(self).parry_window && after_parry(grade, *old(player), old(self).pending_damage as int).hp > 0
                ==> old(self).turn_count < u32::MAX,
        ensures
            !old(self).parry_window ==> *final(self) == *old(self) && *final(player) == *old(player),
            old(self).parry_window ==> {
                &&& !final(self).parry_window
                &&& *final(player) == after_parry(grade, *old(player), old(self).pending_damage as int)
                &&& final(self).enemy == if grade == ParryGrade::Perfect {
                    Enemy { stunned: true, ..old(self).enemy }
                } else {
                    old(self).enemy
                }
                &&& final(self).message@ == parry_text(grade, old(self).pending_damage as int)
                &&& texts(final(self).log@) == texts(old(self).log@).push(final(self).message@)
                &&& final(self).phase == if final(player).hp > 0 {
                    CombatPhase::PlayerTurn
                } else {
                    CombatPhase::Defeat
                }
                &&& final(self).turn_count == if final(player).hp > 0 {
                    old(self).turn_count + 1
                } else {
                    old(self).turn_count as int
                }
                &&& final(self).pending_damage == old(self).pending_damage
                &&& final(self).selected_action == old(self).selected_action
                &&& final(self).action_names == old(self).action_names
            },
    {
        if !self.parry_window {
            return;
        }
        self.parry_window = false;
        let ghost before_log = self.log@;
        match grade {
            ParryGrade::Perfect => {
                self.message = String::from_str("Perfect Parry! Enemy is stunned!");
                self.log.push(self.message.clone());
                self.enemy.stunned = true;
            },
            ParryGrade::Good => {
                self.message = String::from_str("Good parry! Reduced damage taken.");
                self.log.push(self.message.clone());
                let reduced = ((self.pending_damage as i64) * 3 / 10) as i32;
                strike(player, reduced);
            },
            ParryGrade::Miss => {
                strike(player, self.pending_damage);
                self.message = text_with_number("Parry failed! Took ", self.pending_damage, " damage.");
                self.log.push(self.message.clone());
            },
        }
        proof {
            assert(texts(self.log@) =~= texts(before_log).push(self.message@));
        }
        if !player.is_alive() {
            self.phase = CombatPhase::Defeat;
        } else {
            self.phase = CombatPhase::PlayerTurn;
            self.turn_count = self.turn_count + 1;
        }
    }

    /// The parry window closed without a parry: the full pending damage is
    /// taken. With no open window nothing happens.
    pub fn parry_expired(&mut self, player: &mut Character)
        requires
            old(self).parry_window ==> old(player).strike_fits(old(self).pending_damage as int),
            old(self).parry_window && old(player).struck(old(self).pending_damage as int).hp > 0
                ==> old(self).turn_count < u32::MAX,
        ensures
            !old(self).parry_window ==> *final(self) == *old(self) && *final(player) == *old(player),
            old(self).parry_window ==> {
                &&& !final(self).parry_window
                &&& *final(player) == old(player).struck(old(self).pending_damage as int)
                &&& final(self).enemy == old(self).enemy
                &&& final(self).message@ == "Too slow! "@ + old(self).enemy.name@ + " hits for "@
                    + decimal(old(self).pending_damage as int) + " damage."@
                &&& texts(final(self).log@) == texts(old(self).log@).push(final(self).message@)
                &&& final(self).phase == if final(player).hp > 0 {
                    CombatPhase::PlayerTurn
                } else {
                    CombatPhase::Defeat
                }
                &&& final(self).turn_count == if final(player).hp > 0 {
                    old(self).turn_count + 1
                } else {
                    old(self).turn_count as int
                }
                &&& final(self).pending_damage == old(self).pending_damage
                &&& final(self).selected_action == old(self).selected_action
                &&& final(self).action_names == old(self).action_names
            },
    {
        if !self.parry_window {
            return;
        }
        self.parry_window = false;
        strike(player, self.pending_damage);
        let mut msg = text_with_name("Too slow! ", &self.enemy.name, " hits for ");
        crate::text::append_int(&mut msg, self.pending_damage);
        msg.append(" damage.");
        let ghost before_log = self.log@;
        self.log.push(msg.clone());
        proof {
            assert(texts(self.log@) =~= texts(before_log).push(msg@));
        }
        self.message = msg;
        if !player.is_alive() {
            self.phase = CombatPhase::Defeat;
        } else {
            self.phase = CombatPhase::PlayerTurn;
            self.turn_count = self.turn_count + 1;
        }
    }

    /// The player picks action `action` (0 to 3). On the player's turn it is
    /// carried out; the fight is won when the enemy has no hit points left
    /// and lost when the player has none. Returns whether the fight is over.
    pub fn choose_action(&mut self, player: &mut Character, action: usize) -> (over: bool)
        requires
            old(self).phase == CombatPhase::PlayerTurn ==> action_fits(
                action,
                *old(player),
                old(self).enemy,
            ),
        ensures
            old(self).phase != CombatPhase::PlayerTurn ==> {
                &&& *final(self) == (CombatState { selected_action: action, ..*old(self) })
                &&& *final(player) == *old(player)
                &&& !over
            },
            old(self).phase == CombatPhase::PlayerTurn ==> {
                let pre = CombatState { selected_action: action, ..*old(self) };
                let mid = phase_after_action(pre, *old(player));
                &&& player_action_done(pre, *old(player), CombatState { phase: mid, ..*final(self) }, *final(player))
                &&& final(self).phase == if final(self).enemy.hp <= 0 {
                    CombatPhase::Victory
                } else if final(player).hp <= 0 {
                    CombatPhase::Defeat
                } else {
                    mid
                }
                &&& over == (final(self).enemy.hp <= 0 || final(player).hp <= 0)
            },
    {
        self.selected_action = action;
        if self.phase == CombatPhase::PlayerTurn {
            self.execute_player_action(player);
            if !self.enemy.is_alive() {
                self.phase = CombatPhase::Victory;
                return true;
            } else if !player.is_alive() {
                self.phase = CombatPhase::Defeat;
                return true;
            }
        }
        false
    }

    /// The player tries to flee; `escaped` is the outcome of the escape roll.
    /// An escape ends the fight as a victory; a failed one hands the turn to
    /// the enemy. Returns whether the fight is over.
    pub fn attempt_flee(&mut self, escaped: bool) -> (over: bool)
        ensures
            over == escaped,
            final(self).phase == if escaped { CombatPhase::Victory } else { CombatPhase::EnemyTurn },
            final(self).message@ == if escaped {
                "Fled successfully!"@
            } else {
                "Failed to flee! Enemy attacks!"@
            },
            final(self).enemy == old(self).enemy,
            final(self).log == old(self).log,
            final(self).turn_count == old(self).turn_count,
            final(self).parry_window == old(self).parry_window,
            final(self).pending_damage == old(self).pending_damage,
            final(self).selected_action == old(self).selected_action,
            final(self).action_names == old(self).action_names,
    {
        if escaped {
            self.message = String::from_str("Fled successfully!");
            self.phase = CombatPhase::Victory;
            true
        } else {
            self.message = String::from_str("Failed to flee! Enemy attacks!");
            self.phase = CombatPhase::EnemyTurn;
            false
        }
    }
}

} // verus!
