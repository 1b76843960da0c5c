//! The wandering map and what stands on it: the tile map and its collision
//! rule, the people, enemies and pickups placed at the start, what
//! interacting with them does, and how a fight begins and ends.
use vstd::prelude::*;

use crate::character::CharacterClass;
use crate::combat::{name_views, spec_action_names, CombatPhase, CombatState, Enemy};
use crate::dialogue::{advanced, done_at, generic_dialogue, generic_lines, Dialogue};
use crate::inventory::{added, is_astral_herb, is_health_potion, is_mana_potion, Inventory, Item};
use crate::text::{append_int, append_nat, decimal, nat_digits, text_with_name};

verus! {

/// Width of the map in tiles.
pub const MAP_W: usize = 25;

/// Height of the map in tiles.
pub const MAP_H: usize = 18;

/// Open ground.
pub const TILE_GROUND: i32 = 0;

/// Rock and walls.
pub const TILE_ROCK: i32 = 1;

/// Water.
pub const TILE_WATER: i32 = 2;

/// The tile at column `x`, row `y` of the starting map: a wall around the
/// edge, two blocks of rock and two pools of water on open ground.
pub open spec fn map_tile(x: int, y: int) -> i32 {
    if 4 <= y < 7 && 2 <= x < 4 {
        TILE_WATER
    } else if 11 <= y < 14 && 8 <= x < 10 {
        TILE_WATER
    } else if 3 <= y < 6 && 5 <= x < 8 {
        TILE_ROCK
    } else if 9 <= y < 12 && 14 <= x < 17 {
        TILE_ROCK
    } else if y == 0 || y == MAP_H - 1 || x == 0 || x == MAP_W - 1 {
        TILE_ROCK
    } else {
        TILE_GROUND
    }
}

/// The tile at column `x`, row `y` of row-major cells.
pub open spec fn cell(tiles: Seq<i32>, x: int, y: int) -> i32 {
    tiles[y * MAP_W + x]
}

/// The tiles of the map, row by row.
pub struct TileMap {
    tiles: Vec<i32>,
}

impl TileMap {
    /// The tile at column `x`, row `y`.
    pub closed spec fn spec_tile(self, x: int, y: int) -> i32 {
        cell(self.tiles@, x, y)
    }

    pub closed spec fn well_formed(self) -> bool {
        self.tiles@.len() == MAP_W * MAP_H
    }

    pub fn tile(&self, x: usize, y: usize) -> (v: i32)
        requires
            self.well_formed(),
            x < MAP_W,
            y < MAP_H,
        ensures
            v == self.spec_tile(x as int, y as int),
    {
        self.tiles[y * MAP_W + x]
    }
}

/// Sets every cell of the rectangle `x0..x1` by `y0..y1` to `v`.
fn fill_rect(tiles: &mut Vec<i32>, x0: usize, x1: usize, y0: usize, y1: usize, v: i32)
    requires
        old(tiles)@.len() == MAP_W * MAP_H,
        x0 <= x1 <= MAP_W,
        y0 <= y1 <= MAP_H,
    ensures
        final(tiles)@.len() == MAP_W * MAP_H,
        forall|x: int, y: int|
            0 <= x < MAP_W && 0 <= y < MAP_H ==> #[trigger] cell(final(tiles)@, x, y) == if x0 <= x < x1 && y0
                <= y < y1 {
                v
            } else {
                cell(old(tiles)@, x, y)
            },
{
    let ghost start = tiles@;
    let mut y = y0;
    while y < y1
        invariant
            tiles@.len() == MAP_W * MAP_H,
            y0 <= y <= y1 <= MAP_H,
            x0 <= x1 <= MAP_W,
            forall|x: int, yy: int|
                0 <= x < MAP_W && 0 <= yy < MAP_H ==> #[trigger] cell(tiles@, x, yy) == if x0 <= x < x1 && y0
                    <= yy < y {
                    v
                } else {
                    cell(start, x, yy)
                },
        decreases y1 - y,
    {
        let mut x = x0;
        while x < x1
            invariant
                tiles@.len() == MAP_W * MAP_H,
                y0 <= y < y1 <= MAP_H,
                x0 <= x <= x1 <= MAP_W,
                forall|xx: int, yy: int|
                    0 <= xx < MAP_W && 0 <= yy < MAP_H ==> #[trigger] cell(tiles@, xx, yy) == if x0 <= xx
                        < x1 && (y0 <= yy < y || (yy == y && xx < x)) {
                        v
                    } else {
                        cell(start, xx, yy)
                    },
            decreases x1 - x,
        {
            let ghost before = tiles@;
            tiles.set(y * MAP_W + x, v);
            proof {
                assert forall|xx: int, yy: int|
                    0 <= xx < MAP_W && 0 <= yy < MAP_H implies #[trigger] cell(tiles@, xx, yy) == if x0 <= xx
                        < x1 && (y0 <= yy < y || (yy == y && xx < x + 1)) {
                        v
                    } else {
                        cell(start, xx, yy)
                    } by {
                    if xx != x || yy != y {
                        assert(yy * MAP_W + xx != y * MAP_W + x);
                        assert(cell(tiles@, xx, yy) == cell(before, xx, yy));
                    }
                }
            }
            x = x + 1;
        }
        y = y + 1;
    }
}

/// The starting map.
pub fn gen_map() -> (m: TileMap)
    ensures
        m.well_formed(),
        forall|x: int, y: int| 0 <= x < MAP_W && 0 <= y < MAP_H ==> #[trigger] m.spec_tile(x, y) == map_tile(x, y),
{
    let mut tiles: Vec<i32> = Vec::new();
    let mut k: usize = 0;
    while k < MAP_W * MAP_H
        invariant
            k <= MAP_W * MAP_H,
            tiles@.len() == k,
            forall|i: int| 0 <= i < k ==> tiles@[i] == TILE_GROUND,
        decreases MAP_W * MAP_H - k,
    {
        tiles.push(TILE_GROUND);
        k = k + 1;
    }
    fill_rect(&mut tiles, 0, MAP_W, 0, 1, TILE_ROCK);
    fill_rect(&mut tiles, 0, MAP_W, MAP_H - 1, MAP_H, TILE_ROCK);
    fill_rect(&mut tiles, 0, 1, 0, MAP_H, TILE_ROCK);
    fill_rect(&mut tiles, MAP_W - 1, MAP_W, 0, MAP_H, TILE_ROCK);
    fill_rect(&mut tiles, 5, 8, 3, 6, TILE_ROCK);
    fill_rect(&mut tiles, 14, 17, 9, 12, TILE_ROCK);
    fill_rect(&mut tiles, 2, 4, 4, 7, TILE_WATER);
    fill_rect(&mut tiles, 8, 10, 11, 14, TILE_WATER);
    let m = TileMap { tiles };
    proof {
        assert forall|x: int, y: int| 0 <= x < MAP_W && 0 <= y < MAP_H implies #[trigger] m.spec_tile(x, y)
            == map_tile(x, y) by {
            assert(0 <= y * MAP_W + x < MAP_W * MAP_H);
        }
    }
    m
}

/// Every tile but open ground blocks movement.
pub fn tile_solid(v: i32) -> (solid: bool)
    ensures
        solid == (v != TILE_GROUND),
{
    v != TILE_GROUND
}

/// Whether the tile at column `tx`, row `ty` blocks movement; everything
/// off the map does.
pub fn collide_tile(map: &TileMap, tx: usize, ty: usize) -> (blocked: bool)
    requires
        map.well_formed(),
    ensures
        blocked == (tx >= MAP_W || ty >= MAP_H || map.spec_tile(tx as int, ty as int) != TILE_GROUND),
{
    if tx >= MAP_W || ty >= MAP_H {
        return true;
    }
    tile_solid(map.tile(tx, ty))
}


/// What stands on a tile of the map.
pub enum EntityKind {
    /// An enemy; meeting it starts a fight.
    Enemy(Enemy),
    /// A person to talk to, with the id of their dialogue.
    Npc(usize),
    /// An item lying on the ground, and whether it was collected.
    Pickup(Item, bool),
}

/// Something on the map, at a tile position.
pub struct WorldEntity {
    pub tile_x: usize,
    pub tile_y: usize,
    pub kind: EntityKind,
    pub alive: bool,
}

/// An alive person at the given tile, speaking dialogue `id`.
pub open spec fn is_npc_at(e: WorldEntity, x: int, y: int, id: int) -> bool {
    &&& e.tile_x == x
    &&& e.tile_y == y
    &&& e.alive
    &&& e.kind matches EntityKind::Npc(i) && i == id
}

/// An alive enemy at the given tile, fresh from `Enemy::basic`.
pub open spec fn is_enemy_at(e: WorldEntity, x: int, y: int, name: Seq<char>, hp: int, str: int, agi: int) -> bool {
    &&& e.tile_x == x
    &&& e.tile_y == y
    &&& e.alive
    &&& e.kind matches EntityKind::Enemy(en) && {
        &&& en.name@ == name
        &&& en.hp == hp
        &&& en.max_hp == hp
        &&& en.str == str
        &&& en.agi == agi
        &&& en.xp_reward == 30
        &&& en.gold_reward == 15
        &&& !en.stunned
    }
}

/// An alive, uncollected pickup at the given tile.
pub open spec fn is_pickup_at(e: WorldEntity, x: int, y: int) -> bool {
    &&& e.tile_x == x
    &&& e.tile_y == y
    &&& e.alive
    &&& e.kind matches EntityKind::Pickup(_, collected) && !collected
}

/// The item of a pickup.
pub open spec fn pickup_item(e: WorldEntity) -> Item
    recommends
        e.kind is Pickup,
{
    match e.kind {
        EntityKind::Pickup(it, _) => it,
        _ => arbitrary(),
    }
}

/// The people, enemies and pickups of a new game.
pub fn initial_entities() -> (es: Vec<WorldEntity>)
    ensures
        es@.len() == 10,
        is_npc_at(es@[0], 6, 3, 0),
        is_npc_at(es@[1], 15, 10, 1),
        is_npc_at(es@[2], 5, 5, 2),
        is_enemy_at(es@[3], 9, 13, "Shadow Wolf"@, 45, 8, 10),
        is_enemy_at(es@[4], 18, 4, "Void Wraith"@, 55, 10, 12),
        is_enemy_at(es@[5], 12, 7, "Astral Serpent"@, 70, 12, 14),
        is_enemy_at(es@[6], 20, 14, "Fenrir Spawn"@, 90, 14, 15),
        is_pickup_at(es@[7], 3, 15) && is_health_potion(pickup_item(es@[7])),
        is_pickup_at(es@[8], 22, 8) && is_mana_potion(pickup_item(es@[8])),
        is_pickup_at(es@[9], 10, 15) && is_astral_herb(pickup_item(es@[9])),
{
    vec![
        WorldEntity { tile_x: 6, tile_y: 3, kind: EntityKind::Npc(0), alive: true },
        WorldEntity { tile_x: 15, tile_y: 10, kind: EntityKind::Npc(1), alive: true },
        WorldEntity { tile_x: 5, tile_y: 5, kind: EntityKind::Npc(2), alive: true },
        WorldEntity {
            tile_x: 9,
            tile_y: 13,
            kind: EntityKind::Enemy(Enemy::basic("Shadow Wolf", 45, 8, 10)),
            alive: true,
        },
        WorldEntity {
            tile_x: 18,
            tile_y: 4,
            kind: EntityKind::Enemy(Enemy::basic("Void Wraith", 55, 10, 12)),
            alive: true,
        },
        WorldEntity {
            tile_x: 12,
            tile_y: 7,
            kind: EntityKind::Enemy(Enemy::basic("Astral Serpent", 70, 12, 14)),
            alive: true,
        },
        WorldEntity {
            tile_x: 20,
            tile_y: 14,
            kind: EntityKind::Enemy(Enemy::basic("Fenrir Spawn", 90, 14, 15)),
            alive: true,
        },
        WorldEntity {
            tile_x: 3,
            tile_y: 15,
            kind: EntityKind::Pickup(Item::health_potion(), false),
            alive: true,
        },
        WorldEntity {
            tile_x: 22,
            tile_y: 8,
            kind: EntityKind::Pickup(Item::mana_potion(), false),
            alive: true,
        },
        WorldEntity {
            tile_x: 10,
            tile_y: 15,
            kind: EntityKind::Pickup(Item::astral_herb(), false),
            alive: true,
        },
    ]
}

/// What interacting with an entity led to.
pub enum Interaction {
    /// A fight with this enemy begins.
    Combat(Enemy),
    /// A conversation begins.
    Talk(Dialogue),
    /// An item was picked up; the message to show.
    PickedUp(String),
    /// Nothing happened.
    Nothing,
}

/// The entity with its `alive` flag cleared.
pub open spec fn removed(e: WorldEntity) -> WorldEntity {
    WorldEntity { alive: false, ..e }
}

/// Interacts with entity `index`. Meeting an enemy removes it from the map
/// and starts a fight with it; a person starts their dialogue; an
/// uncollected pickup puts one of its item into the inventory and leaves
/// the map; a collected one does nothing.
pub fn interact(entities: &mut Vec<WorldEntity>, index: usize, inventory: &mut Inventory) -> (r: Interaction)
    requires
        index < old(entities)@.len(),
    ensures
        final(inventory).gold == old(inventory).gold,
        ({
            let e = old(entities)@[index as int];
            match e.kind {
                EntityKind::Enemy(en) => {
                    &&& r matches Interaction::Combat(f) && f == en
                    &&& final(entities)@ == old(entities)@.update(index as int, removed(e))
                    &&& final(inventory).items@ == old(inventory).items@
                },
                EntityKind::Npc(id) => {
                    &&& r matches Interaction::Talk(d) && d.lines_view() == generic_lines(id) && d.line() == 0
                    &&& final(entities)@ == old(entities)@
                    &&& final(inventory).items@ == old(inventory).items@
                },
                EntityKind::Pickup(it, collected) => if collected {
                    &&& r is Nothing
                    &&& final(entities)@ == old(entities)@
                    &&& final(inventory).items@ == old(inventory).items@
                } else {
                    &&& r matches Interaction::PickedUp(m) && m@ == "Picked up "@ + it.name@ + "."@
                    &&& final(entities)@ == old(entities)@.update(index as int, removed(e))
                    &&& final(inventory).items@ == added(old(inventory).items@, Item { quantity: 1, ..it })
                },
            }
        }),
{
    let ghost e0 = entities@[index as int];
    let result = match &entities[index].kind {
        EntityKind::Enemy(en) => Interaction::Combat(en.copy()),
        EntityKind::Npc(id) => {
            return Interaction::Talk(generic_dialogue(*id));
        },
        EntityKind::Pickup(it, collected) => {
            if *collected {
                return Interaction::Nothing;
            }
            let name = it.name.clone();
            let mut one = it.copy();
            one.quantity = 1;
            inventory.add_item(one);
            Interaction::PickedUp(text_with_name("Picked up ", &name, "."))
        },
    };
    entities[index].alive = false;
    proof {
        assert(entities@ =~= old(entities)@.update(index as int, removed(e0)));
    }
    result
}

/// Begins a fight with `enemy` for a champion of `class`, with the message
/// that announces it.
pub fn start_combat(enemy: Enemy, class: CharacterClass) -> (res: (CombatState, String))
    ensures
        res.0.enemy == enemy,
        res.0.phase == CombatPhase::PlayerTurn,
        res.0.log@.len() == 0,
        !res.0.parry_window,
        res.0.turn_count == 0,
        res.0.selected_action == 0,
        res.0.pending_damage == 0,
        name_views(res.0.action_names) == spec_action_names(),
        res.0.message@ == "Choose your action! (1-4)"@,
        res.1@ == "A wild "@ + enemy.name@ + " appears!"@,
{
    let msg = text_with_name("A wild ", &enemy.name, " appears!");
    let mut cs = CombatState::new(enemy, class);
    cs.log.clear();
    (cs, msg)
}

/// How a finished fight ended.
pub enum CombatResolution {
    /// The fight was won (or fled); the message to show.
    Victory(String),
    /// The champion fell; the reason shown on the game-over screen.
    Defeat(String),
}

/// Ends a fight. A won fight pays the enemy's gold into the inventory and
/// reports the XP and gold; any other ending is a defeat at the enemy's hands.
pub fn resolve_combat(cs: &CombatState, inventory: &mut Inventory) -> (r: CombatResolution)
    requires
        cs.phase == CombatPhase::Victory ==> old(inventory).gold + cs.enemy.gold_reward <= u32::MAX,
    ensures
        final(inventory).items == old(inventory).items,
        cs.phase == CombatPhase::Victory ==> {
            &&& final(inventory).gold == old(inventory).gold + cs.enemy.gold_reward
            &&& r matches CombatResolution::Victory(m) && m@ == "Victory! +"@ + decimal(cs.enemy.xp_reward as int)
                + " XP, +"@ + nat_digits(cs.enemy.gold_reward as nat) + " Gold"@
        },
        cs.phase != CombatPhase::Victory ==> {
            &&& final(inventory).gold == old(inventory).gold
            &&& r matches CombatResolution::Defeat(m) && m@ == "Slain by "@ + cs.enemy.name@ + "..."@
        },
{
    if cs.phase == CombatPhase::Victory {
        inventory.gold = inventory.gold + cs.enemy.gold_reward;
        let mut m = String::from_str("Victory! +");
        append_int(&mut m, cs.enemy.xp_reward);
        m.append(" XP, +");
        append_nat(&mut m, cs.enemy.gold_reward as u64);
        m.append(" Gold");
        CombatResolution::Victory(m)
    } else {
        CombatResolution::Defeat(text_with_name("Slain by ", &cs.enemy.name, "..."))
    }
}

/// The player presses to continue a dialogue: a finished dialogue closes
/// (returns `true`), any other moves to its next line.
pub fn continue_dialogue(d: &mut Dialogue) -> (closed: bool)
    ensures
        closed == done_at(old(d).line(), old(d).lines_view().len() as int),
        final(d).lines_view() == old(d).lines_view(),
        final(d).line() == if closed {
            old(d).line()
        } else {
            advanced(old(d).line(), old(d).lines_view().len() as int)
        },
{
    if d.is_done() {
        true
    } else {
        d.advance();
        false
    }
}

} // verus!
