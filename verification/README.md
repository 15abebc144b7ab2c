# sway-scratchpads

A simple manager for HUDs in sway.

It stores a list of scratchpad commands and the ids of the clients that belong to
them. To toggle a scratchpad that is hidden makes sure that there is a client with that
id, by running the command if it needs to, and then shows that client; to toggle one that
is on show hides its client. It runs as a daemon, so that it hears of clients that open
and close.

- `src/` is the library: the rules, verified with Verus.
  - `store` holds the scratchpads and the windows of their applications; `toggle`,
    `listen` and `save` are the requests and events that it answers.
  - `sway` writes the commands for sway, `tree` searches the layout tree, `table` and
    `text` are what they build on.
  - `reply` is the answer to a request on the session bus; `cli` and `usage` are the
    command line.
  - `laws` says what holds over several requests and events.
- `app/` is the program: the session bus, sway's socket, the configuration file and
  the processes that are started.
- `tests/` runs the library.
