# map_tests

A deterministic procedural world map: terrain, rivers, settlements, roads and
ecology, all derived from one `u64` seed and a few strength parameters. The
same seed and parameters always give the same world.

## Layout

- `src/` — the library, written in Verus. Every function carries a contract
  and is proved:
  - `prng`, `text` — seed hashing, noise bits, exact index and threshold
    rolls on the 53-bit noise values, number formatting;
  - `game_time`, `game_loop` — the in-game clock and the pause / speed state;
  - `types`, `config`, `colors`, `view` — biomes, shape profiles, palettes,
    the level-of-detail views and their cache;
  - `seed_input` — reading a seed typed by the user;
  - `settlement`, `settlements_draw` — settlement tiers, names, district
    roles and labels;
  - `road_network`, `road_links`, `road_search` — which settlements are
    linked by which kind of road, and the Dijkstra grid search that traces
    a road over land;
  - `ecology`, `ecology_view` — species catalogs, the species picked for a
    region or chunk, and the summaries shown to the player.
- `tests/` — tests of the library on concrete values.
- `app/` — the desktop program (egui): window, input, drawing, and the
  floating-point terrain field (noise, elevation, moisture, rivers), which
  hands plain values to the library and takes plain values back.

The shape of the land follows `seed % 6`: 0 Radial, 1 Ellipse, 2 SquareBump,
3 Irregular, 4 Archipelago, 5 Continents.
