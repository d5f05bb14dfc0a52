# typing_test_tui

A terminal typing test with a multiplayer mode, whose core is verified with Verus.

- `src/` is the verified library: letters and words of a test (`typing_test`,
  `typing_test::letter`), the mode picker (`typing_test::mode_selection`), a tree
  selection widget (`typing_test::selection`), the multiplayer wire protocol and
  game state (`multiplayer`), the decisions of the application loop (`tui`), the
  text helpers they share (`text`) and the test modes (`model`, `data`).
- `app/` is the terminal client around it: terminal events and drawing, the
  websocket connection, JSON decoding of server payloads, and the data files.
- `tests/` runs the library on concrete values.
