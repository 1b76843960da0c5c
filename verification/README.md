# Astral Legends

A turn-based combat RPG set in a mythological astral realm. The rules of the
game are a Verus library (`src/`), and the game itself — window, input,
movement, drawing, sound and the random rolls — is a macroquad program
(`app/`) built on it.

- `src/character.rs` — the four classes, their base statistics, the Knight's
  visor, damage, healing and mana.
- `src/combat.rs` — enemies, the four combat actions (Attack, Charge, Lunge,
  Fireball), the enemy's turn, parrying and fleeing.
- `src/dialogue.rs` — dialogues and the lines people say.
- `src/inventory.rs` — items, stacking, the twenty-slot limit, using items.
- `src/world.rs` — the tile map and collisions, the entities of a new game,
  interacting with them, and starting and ending a fight.
- `src/text.rs`, `src/num.rs` — decimal rendering of numbers in messages and
  integer helpers for the specifications.

The contracts of the public functions state their results over spec
functions. The laws of the game are proof functions next to the code they are
about. Among them: stacking loses nothing but what a full inventory turns
away, a refused action changes nothing, and a visor round trip restores every
statistic but hit points.
