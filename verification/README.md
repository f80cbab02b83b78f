# building_blocks

The verified core of a data-driven block game engine.

- `src/resources`: definitions of block types, materials and textures, data packs that
  key them by identifier, and universes that stack data packs (later packs take
  precedence in lookups); the example universe.
- `src/world`: worlds, scenes, layouts and block groups; the example world.
- `src/client`: the client's views of the game, patched by server messages, and the plain
  data the renderer draws from.
- `src/server`: server messages and the replies to an accepted connection.
- `src/deps`: the outside types the library carries and the trusted wrappers around
  `glam`, `indexmap`, `dashmap`, `generational-arena` and `std::path`.
- `app/`: a program that loads a universe from disk (RON) and runs a server and a local
  client that follows it.
