# pipeworkmc

Data types, wire encodings and game rules of a Minecraft server framework, verified
with Verus.

- `src/data`: colours, identifiers, text (building, styling, serialising, printing),
  the protocol's primitive encodings (variable-length integers, strings, big-endian
  integers), network NBT, block positions, plugin-channel messages, account profiles,
  registry entries, light levels and multiples of 16.
- `src/game`: which characters each player sees and under which identifier, player
  settings and when changes of them are sent, login approval with duplicate handling,
  and status answers.
- `app`: what stays ordinary Rust: serde glue, the registry entries that hold floats,
  reading profiles from JSON, and the ECS systems and plugins that drive the game rules.
- `tests`: concrete cases for the encodings, texts, NBT and game rules.
