# runst

The Wayland backend of a desktop notification daemon.

The library under `src/` is verified with Verus. It holds the decisions of the
backend and leaves the talking to others: it names actions, the program around
it carries them out and hands back the answers.

| module     | what it decides                                               |
|------------|---------------------------------------------------------------|
| `backend`  | the backend interface, its windows, and what goes to a window |
| `setup`    | how a window is created                                       |
| `state`    | how a window answers events                                   |
| `draw`     | how a notification is drawn                                   |
| `events`   | how a window's event loop is prepared and kept running        |
| `template` | how the message template and its `humantime` filter are made  |
| `scan`     | which message templates hold a list that Tera cannot read     |
| `config`, `error`, `host` | the types that the others share                |
| `laws`     | what holds of the backend as a whole                          |

Tera and humantime are called from `template`, behind contracts that state what
is relied on. `app/` ties the library to the compositor, the event loop and the
drawing libraries; `tests/` runs the library on concrete values.
