# rusc

The rules of a rhythm game for SDVX-style charts and of its chart editor, as a
library whose behaviour is stated in contracts and proved with Verus.

`src/` holds the library:

- `action_stack`: the editor's undo/redo history, with its laws (undo then redo gives
  back the history, a new edit clears what could be redone, the saved flag).
- `timing`, `scoring`, `play`, `gauge`, `results`, `autoplay`: judging presses and
  passing scoring points, the running and displayed score, the gauge fallback chain,
  clear marks and grades.
- `buttons`, `input`, `lighting`, `camera`: controller buttons and their codes, held
  buttons, controller lights, camera patterns set off by slams.
- `mp_screen`, `main_menu`, `companion`, `ir`, `lua`, `lua_http`: the multiplayer lobby's
  state machine, the title screen, companion app requests, internet ranking requests,
  and what skin scripts call.
- `editor`, `screen`, `tools`: editor commands and modifiers, the column layout of the
  chart view, and the editor's note, range, tempo and time signature tools.
- `shader`, `songs_db`, `config`: shader source rewriting, the song search query, and
  settings.

`tests/` runs the library on concrete values. `app/` is the program around it: command
line, settings file, and the JSON forms of the ranking and companion messages.
