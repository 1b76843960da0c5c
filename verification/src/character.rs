//! The champions: their classes, base statistics, the Knight's visor, and
//! the arithmetic of damage, healing and mana.
use vstd::prelude::*;

use crate::num::{imax, imin, tdiv};

verus! {

/// The four playable classes.
#[derive(Clone, Copy, PartialEq, Eq, Structural, Debug)]
pub enum CharacterClass {
    Warrior,
    Knight,
    Archer,
    Mage,
}

impl CharacterClass {
    pub open spec fn spec_class_name(self) -> Seq<char> {
        match self {
            CharacterClass::Warrior => "Warrior"@,
            CharacterClass::Knight => "Knight"@,
            CharacterClass::Archer => "Archer"@,
            CharacterClass::Mage => "Mage"@,
        }
    }

    pub open spec fn spec_myth_name(self) -> Seq<char> {
        match self {
            CharacterClass::Warrior => "Beowulf"@,
            CharacterClass::Knight => "Gawain"@,
            CharacterClass::Archer => "Arjuna"@,
            CharacterClass::Mage => "Circe"@,
        }
    }

    pub open spec fn spec_myth_origin(self) -> Seq<char> {
        match self {
            CharacterClass::Warrior => "From the Old English epic. A Geatish hero who defeated the monster Grendel with his bare hands."@,
            CharacterClass::Knight => "From Arthurian legend. A knight of the Round Table known for his honor, courage, and the Green Knight test."@,
            CharacterClass::Archer => "From the Hindu epic Mahabharata. A master archer and warrior prince who never missed his mark."@,
            CharacterClass::Mage => "From Homer's Odyssey. An enchantress skilled in potions and magic who turned men to beasts."@,
        }
    }

    /// Base strength of the class.
    pub open spec fn base_str(self) -> i32 {
        match self {
            CharacterClass::Warrior => 15,
            CharacterClass::Knight => 12,
            CharacterClass::Archer => 8,
            CharacterClass::Mage => 4,
        }
    }

    /// Base agility of the class.
    pub open spec fn base_agi(self) -> i32 {
        match self {
            CharacterClass::Warrior => 8,
            CharacterClass::Knight => 6,
            CharacterClass::Archer => 16,
            CharacterClass::Mage => 8,
        }
    }

    /// Base intelligence of the class.
    pub open spec fn base_int(self) -> i32 {
        match self {
            CharacterClass::Warrior => 4,
            CharacterClass::Knight => 5,
            CharacterClass::Archer => 6,
            CharacterClass::Mage => 18,
        }
    }

    /// Base vitality of the class.
    pub open spec fn base_vit(self) -> i32 {
        match self {
            CharacterClass::Warrior => 14,
            CharacterClass::Knight => 16,
            CharacterClass::Archer => 10,
            CharacterClass::Mage => 8,
        }
    }

    /// Warriors and Knights carry a shield.
    pub open spec fn carries_shield(self) -> bool {
        self == CharacterClass::Warrior || self == CharacterClass::Knight
    }

    pub fn class_name(self) -> (name: &'static str)
        ensures
            name@ == self.spec_class_name(),
    {
        match self {
            CharacterClass::Warrior => "Warrior",
            CharacterClass::Knight => "Knight",
            CharacterClass::Archer => "Archer",
            CharacterClass::Mage => "Mage",
        }
    }

    pub fn myth_name(self) -> (name: &'static str)
        ensures
            name@ == self.spec_myth_name(),
    {
        match self {
            CharacterClass::Warrior => "Beowulf",
            CharacterClass::Knight => "Gawain",
            CharacterClass::Archer => "Arjuna",
            CharacterClass::Mage => "Circe",
        }
    }

    pub fn myth_origin(self) -> (origin: &'static str)
        ensures
            origin@ == self.spec_myth_origin(),
    {
        match self {
            CharacterClass::Warrior => "From the Old English epic. A Geatish hero who defeated the monster Grendel with his bare hands.",
            CharacterClass::Knight => "From Arthurian legend. A knight of the Round Table known for his honor, courage, and the Green Knight test.",
            CharacterClass::Archer => "From the Hindu epic Mahabharata. A master archer and warrior prince who never missed his mark.",
            CharacterClass::Mage => "From Homer's Odyssey. An enchantress skilled in potions and magic who turned men to beasts.",
        }
    }
}

/// Position of the Knight's visor.
#[derive(Clone, Copy, PartialEq, Eq, Structural, Debug)]
pub enum VisorState {
    Up,
    Down,
}

/// A champion and the statistics that combat reads and changes.
#[derive(Clone, Debug)]
pub struct Character {
    pub class: CharacterClass,
    pub hp: i32,
    pub max_hp: i32,
    pub mana: i32,
    pub max_mana: i32,
    pub str: i32,
    pub agi: i32,
    pub int: i32,
    pub vit: i32,
    pub level: i32,
    pub xp: i32,
    pub visor_state: VisorState,
    pub charged: bool,
    pub shielded: bool,
}

/// Hit points granted by each point of vitality, above a base of 100.
pub open spec fn max_hp_for(vit: int) -> int {
    100 + vit * 5
}

/// Mana granted by each point of intelligence, above a base of 50.
pub open spec fn max_mana_for(int_stat: int) -> int {
    50 + int_stat * 3
}

impl Character {
    /// The damage that actually reaches the character: a shield halves it.
    pub open spec fn mitigated(self, amount: int) -> int {
        if self.shielded {
            tdiv(amount, 2)
        } else {
            amount
        }
    }

    /// The character after taking `amount` damage.
    pub open spec fn damaged(self, amount: int) -> Character {
        Character { hp: imax(self.hp - self.mitigated(amount), 0) as i32, ..self }
    }

    /// Whether taking `amount` damage stays within `i32`.
    pub open spec fn damage_fits(self, amount: int) -> bool {
        i32::MIN <= self.hp - self.mitigated(amount) <= i32::MAX
    }

    /// The character after a blow of `amount` that no shield reduces.
    pub open spec fn struck(self, amount: int) -> Character {
        Character { hp: imax(self.hp - amount, 0) as i32, ..self }
    }

    /// Whether a blow of `amount` stays within `i32`.
    pub open spec fn strike_fits(self, amount: int) -> bool {
        i32::MIN <= self.hp - amount <= i32::MAX
    }

    /// The damage of a basic attack: half the strength, doubled when charged.
    pub open spec fn spec_attack_damage(self) -> int {
        if self.charged {
            tdiv(self.str as int, 2) * 2
        } else {
            tdiv(self.str as int, 2)
        }
    }

    pub fn new(class: CharacterClass) -> (c: Self)
        ensures
            c.class == class,
            c.str == class.base_str(),
            c.agi == class.base_agi(),
            c.int == class.base_int(),
            c.vit == class.base_vit(),
            c.max_hp == max_hp_for(c.vit as int),
            c.hp == c.max_hp,
            c.max_mana == max_mana_for(c.int as int),
            c.mana == c.max_mana,
            c.level == 1,
            c.xp == 0,
            c.visor_state == VisorState::Up,
            !c.charged,
            c.shielded == class.carries_shield(),
    {
        let mut c = Character {
            class,
            hp: 0,
            max_hp: 0,
            mana: 0,
            max_mana: 0,
            str: 0,
            agi: 0,
            int: 0,
            vit: 0,
            level: 1,
            xp: 0,
            visor_state: VisorState::Up,
            charged: false,
            shielded: false,
        };
        match class {
            CharacterClass::Warrior => {
                c.str = 15;
                c.agi = 8;
                c.int = 4;
                c.vit = 14;
                c.shielded = true;
            },
            CharacterClass::Knight => {
                c.str = 12;
                c.agi = 6;
                c.int = 5;
                c.vit = 16;
                c.shielded = true;
            },
            CharacterClass::Archer => {
                c.str = 8;
                c.agi = 16;
                c.int = 6;
                c.vit = 10;
            },
            CharacterClass::Mage => {
                c.str = 4;
                c.agi = 8;
                c.int = 18;
                c.vit = 8;
            },
        }
        c.max_hp = 100 + c.vit * 5;
        c.hp = c.max_hp;
        c.max_mana = 50 + c.int * 3;
        c.mana = c.max_mana;
        c
    }

    pub fn class_name(&self) -> (name: &'static str)
        ensures
            name@ == self.class.spec_class_name(),
    {
        self.class.class_name()
    }

    /// Whether toggling the visor of this character stays within `i32`.
    pub open spec fn visor_toggle_fits(self) -> bool {
        self.class == CharacterClass::Knight ==> match self.visor_state {
            VisorState::Up => {
                &&& self.vit + 3 <= i32::MAX
                &&& self.max_hp + 15 <= i32::MAX
                &&& self.hp + 15 <= i32::MAX
                &&& self.agi - 2 >= i32::MIN
            },
            VisorState::Down => {
                &&& self.vit - 3 >= i32::MIN
                &&& self.max_hp - 15 >= i32::MIN
                &&& self.agi + 2 <= i32::MAX
            },
        }
    }

    /// The character after lowering the visor.
    pub open spec fn visor_lowered(self) -> Character {
        Character {
            visor_state: VisorState::Down,
            vit: (self.vit + 3) as i32,
            max_hp: (self.max_hp + 15) as i32,
            hp: (self.hp + 15) as i32,
            agi: imax(self.agi - 2, 1) as i32,
            ..self
        }
    }

    /// The character after raising the visor.
    pub open spec fn visor_raised(self) -> Character {
        Character {
            visor_state: VisorState::Up,
            vit: (self.vit - 3) as i32,
            max_hp: (self.max_hp - 15) as i32,
            hp: imin(self.hp as int, self.max_hp - 15) as i32,
            agi: (self.agi + 2) as i32,
            ..self
        }
    }

    /// Only a Knight has a visor. Lowering it trades agility (never below 1)
    /// for vitality and hit points; raising it undoes the trade, and the hit
    /// points are cut down to the lowered maximum.
    pub fn toggle_visor(&mut self) -> (msg: Option<&'static str>)
        requires
            old(self).visor_toggle_fits(),
        ensures
            old(self).class != CharacterClass::Knight ==> msg is None && *final(self) == *old(self),
            old(self).class == CharacterClass::Knight && old(self).visor_state == VisorState::Up
                ==> msg is Some && msg->0@ == "Visor lowered: +VIT, +HP, -AGI"@
                && *final(self) == old(self).visor_lowered(),
            old(self).class == CharacterClass::Knight && old(self).visor_state == VisorState::Down
                ==> msg is Some && msg->0@ == "Visor raised: -VIT, -HP, +AGI"@
                && *final(self) == old(self).visor_raised(),
    {
        if self.class != CharacterClass::Knight {
            return None;
        }
        match self.visor_state {
            VisorState::Up => {
                self.visor_state = VisorState::Down;
                self.vit = self.vit + 3;
                let bonus: i32 = 15;
                self.max_hp = self.max_hp + bonus;
                self.hp = self.hp + bonus;
                let lowered = self.agi - 2;
                self.agi = if lowered > 1 { lowered } else { 1 };
                Some("Visor lowered: +VIT, +HP, -AGI")
            },
            VisorState::Down => {
                self.visor_state = VisorState::Up;
                self.vit = self.vit - 3;
                self.max_hp = self.max_hp - 15;
                if self.hp > self.max_hp {
                    self.hp = self.max_hp;
                }
                self.agi = self.agi + 2;
                Some("Visor raised: -VIT, -HP, +AGI")
            },
        }
    }

    pub fn attack_damage(&self) -> (dmg: i32)
        ensures
            dmg == self.spec_attack_damage(),
    {
        let base = self.str / 2;
        if self.charged {
            base * 2
        } else {
            base
        }
    }

    /// Hit points fall by the mitigated damage, and never below zero.
    pub fn take_damage(&mut self, amount: i32)
        requires
            old(self).damage_fits(amount as int),
        ensures
            *final(self) == old(self).damaged(amount as int),
    {
        let mitigated = if self.shielded { amount / 2 } else { amount };
        let left = self.hp - mitigated;
        self.hp = if left > 0 { left } else { 0 };
    }

    /// Hit points rise by `amount`, and never above the maximum.
    pub fn heal(&mut self, amount: i32)
        requires
            i32::MIN <= old(self).hp + amount <= i32::MAX,
        ensures
            *final(self) == (Character {
                hp: imin(old(self).hp + amount, old(self).max_hp as int) as i32,
                ..*old(self)
            }),
    {
        let raised = self.hp + amount;
        self.hp = if raised < self.max_hp { raised } else { self.max_hp };
    }

    /// Mana rises by `amount`, and never above the maximum.
    pub fn restore_mana(&mut self, amount: i32)
        requires
            i32::MIN <= old(self).mana + amount <= i32::MAX,
        ensures
            *final(self) == (Character {
                mana: imin(old(self).mana + amount, old(self).max_mana as int) as i32,
                ..*old(self)
            }),
    {
        let raised = self.mana + amount;
        self.mana = if raised < self.max_mana { raised } else { self.max_mana };
    }

    /// Spends `amount` mana when there is enough of it; otherwise nothing changes.
    pub fn use_mana(&mut self, amount: i32) -> (spent: bool)
        requires
            old(self).mana >= amount ==> old(self).mana - amount <= i32::MAX,
        ensures
            spent == (old(self).mana >= amount),
            spent ==> *final(self) == (Character { mana: (old(self).mana - amount) as i32, ..*old(self) }),
            !spent ==> *final(self) == *old(self),
    {
        if self.mana >= amount {
            self.mana = self.mana - amount;
            true
        } else {
            false
        }
    }

    pub fn is_alive(&self) -> (alive: bool)
        ensures
            alive == (self.hp > 0),
    {
        self.hp > 0
    }

    pub fn block_reduces(&self) -> (blocks: bool)
        ensures
            blocks == self.shielded,
    {
        self.shielded
    }
}


/// A shield blocks half of a hit taken through `take_damage` (rounded toward
/// zero), and nothing else does; hit points never fall below zero and
/// nothing but hit points changes. An unshielded character takes the full hit.
pub proof fn lemma_shield_blocks_half(c: Character, amount: int)
    requires
        c.damage_fits(amount),
    ensures
        c.damaged(amount) == (Character {
            hp: imax(c.hp - (if c.shielded { tdiv(amount, 2) } else { amount }), 0) as i32,
            ..c
        }),
        c.damaged(amount).hp >= 0,
{
}

/// Lowering the visor adds 3 vitality, 15 maximum and current hit points,
/// and takes 2 agility (never below 1); raising it takes back the vitality
/// and maximum, caps hit points at the new maximum and gives back 2 agility.
/// Nothing else about the Knight changes.
pub proof fn lemma_visor_trade(c: Character)
    requires
        c.visor_toggle_fits(),
    ensures
        c.class == CharacterClass::Knight && c.visor_state == VisorState::Up ==> {
            &&& c.visor_lowered().vit == c.vit + 3
            &&& c.visor_lowered().max_hp == c.max_hp + 15
            &&& c.visor_lowered().hp == c.hp + 15
            &&& c.visor_lowered().agi == if c.agi - 2 >= 1 { c.agi - 2 } else { 1 }
            &&& c.visor_lowered() == (Character {
                vit: c.visor_lowered().vit,
                max_hp: c.visor_lowered().max_hp,
                hp: c.visor_lowered().hp,
                agi: c.visor_lowered().agi,
                visor_state: VisorState::Down,
                ..c
            })
        },
        c.class == CharacterClass::Knight && c.visor_state == VisorState::Down ==> {
            &&& c.visor_raised().vit == c.vit - 3
            &&& c.visor_raised().max_hp == c.max_hp - 15
            &&& c.visor_raised().hp == if c.hp <= c.max_hp - 15 { c.hp as int } else { c.max_hp - 15 }
            &&& c.visor_raised().agi == c.agi + 2
            &&& c.visor_raised() == (Character {
                vit: c.visor_raised().vit,
                max_hp: c.visor_raised().max_hp,
                hp: c.visor_raised().hp,
                agi: c.visor_raised().agi,
                visor_state: VisorState::Up,
                ..c
            })
        },
{
}

/// Lowering the Knight's visor and raising it again restores every
/// statistic except hit points, which keep up to 15 of the bonus, capped at
/// the maximum; agility must be at least 3, since lowering never takes it
/// below 1.
pub proof fn lemma_visor_round_trip_from_up(c: Character)
    requires
        c.class == CharacterClass::Knight,
        c.visor_state == VisorState::Up,
        c.visor_toggle_fits(),
        c.agi >= 3,
    ensures
        c.visor_lowered().visor_toggle_fits(),
        c.visor_lowered().visor_raised() == (Character { hp: imin(c.hp + 15, c.max_hp as int) as i32, ..c }),
{
}

/// Raising the Knight's visor and lowering it again restores every
/// statistic except hit points, which rise by 15, capped at the maximum;
/// agility must be at least 1.
pub proof fn lemma_visor_round_trip_from_down(c: Character)
    requires
        c.class == CharacterClass::Knight,
        c.visor_state == VisorState::Down,
        c.visor_toggle_fits(),
        c.agi >= 1,
    ensures
        c.visor_raised().visor_toggle_fits(),
        c.visor_raised().visor_lowered() == (Character { hp: imin(c.hp + 15, c.max_hp as int) as i32, ..c }),
{
}
} // verus!
