# WoW launcher

A launcher for a private game server: it starts, stops and restarts MySQL, the auth server and the
world server, shows each of them in a terminal of its own, and starts the game client.

- `src/` is the library: what the launcher decides, verified with Verus.
  - `service`, `config`, `theme`, `text`: the programs, their paths, the colours, and small text
    functions.
  - `emulator`, `terminal`: the terminal emulator (`vt100`) with what is relied on of it, and the
    snapshots that a page shows.
  - `input`: the bytes that a key press sends.
  - `process`: the decisions between the steps of launching, feeding, reading and ending a process.
  - `app`, `model`, `update`: the state and the messages, what each message does to the state, and
    the functions that do it.
  - `ui`: what the window shows in a state.
  - `laws`: what holds of the launcher as a whole.
- `app/` is the program around it: the window and its widgets, the processes and threads, the files
  and the log. What is in floating point stays there too: how many rows and columns fit into the
  window, and the fractions of a line that the wheel turns by.
- `tests/` runs the library.
