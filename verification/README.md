# chipgame

The game logic of a Chip's Challenge style puzzle game — its level editor,
menus, progression and save data, the configuration file, and the decisions
that turn game events into sprites and animations — written in Verus with
each public function's behaviour stated in its contract and proved.

Layout:

- `src/config.rs` — the configuration file: INI items (read with
  `ini_core`) folded into shaders, textures, fonts, sounds and music.
- `src/data/` — terrain, entities, sprites and models.
- `src/editor/` — the level being edited, its tools (terrain with flood
  fill, entities, connections, ice and force paths), resizing, the undo
  history with the session that records edits, and the level encoding.
- `src/fx/` — presentation decisions: sprites and models for entities,
  reactions to game events, the HUD's counters and the level view's
  per-frame choices.
- `src/menu/` — every menu's cursor movement and the events it sends.
- `src/play/` — level sets, save data and the game flow that answers menu
  and level events with actions for the host.
- `src/render/` — the render object map.
- `app/` — the host side: files on disk (level sets, save files, the
  configuration), the checks before editor commands, the menu stack, and
  the loop that carries out the flow's actions.
- `tests/` — tests of the library on concrete values.
