# loa_parser

Helpers of a combat-log parser for an online game, verified with Verus.

`src/` is the verified library:

- `model` – the records read from the game's data tables and produced for an encounter.
- `tables` – the data tables (skills, skill effects, buffs, combat effects, engravings,
  stat types), each a `hashbrown` map, read through functions whose contracts speak of
  each table's contents.
- `buff_flags` – classifying a buff into the kinds of effect it has, as flag bits.
- `status_effect` – the status effect that a buff id is shown as.
- `skills` – names and icons of skills, skill effects and battle items.
- `classes` – class names, support classes, class engravings, gem levels.
- `engravings` – a player's engravings, split by class and put in display order.
- `damage` – binary search, windowed sums and running averages over damage logs.
- `entity` – encounter records of entities and tripod changes.
- `encounter` – the arithmetic and rules applied when an encounter is stored: its
  notes, its stagger statistics, which entities are kept, and each player's rolling
  and average damage, identity gains, card draw counts and skills (damage per second,
  cast logs, gem levels).

`app/` is ordinary Rust around it: loading the data tables from JSON with serde, and
storing an encounter in SQLite with rusqlite, including the floating-point statistics.

`tests/` exercises the library on concrete values.
