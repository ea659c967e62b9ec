# cortex

The logic of a terminal Kanban board that assigns agents to tasks, written and
verified in Verus.

`src/` holds everything that decides: which handler takes a key and what it
does, how tasks move between columns and when agents are started, how reviews
are accepted and committed, how diffs, logs and key bindings are read, and what
is drawn where. It does no input or output. A handler changes the `AppState` it
is given and returns `Effects`: what has to be done outside, in order. Where
something comes back from there, a further function takes it and goes on. A view
adds `Draw`s to a `Canvas`.

- `app`, `normal`, `modes`, `prompts`, `mouse`: keys and mouse events
- `tasks`, `projects`, `review`, `subagent`, `permission`, `utils`: actions and
  what follows them
- `view`, `kanban`, `task_card`, `sidebar`, `status_bar`, `overlays`,
  `permission_modal`, `help`, `loading`, `config_editor`, `diff_view`,
  `reports`: what is drawn
- `state`, `config`, `effects`, `draw`, `keys`, `table`, `page`, `editor`,
  `editor_handler`, `text`: the data and what is built from it

Every function states in its contract what it returns and changes. What holds
across functions is stated by the proof functions named `law_*`.

Five outside functions are trusted, each with a contract that says what is
believed of it: `String::push`, `str::to_lowercase` and
`String::from_utf8_lossy` in `text`, and ratatui's `Layout::split` and
`Line::width` in `draw`.

`app/` is ordinary Rust around the library: the terminal, the event loop, runs of
`git` and requests to the server. What belongs to the rest of the program (the
store behind the state, the connections, the orchestration and the views of a
single task) is behind the trait `Host` in `app/host.rs`.
