# homenode_web

The verified core of the HomeNode web module: what its pages show, what its requests change, and
what it tells the lights, the Hue bridge and the supervisor.

- `src/` is the library. Every function states in its contract what it gives back; Verus proves it.
  - `text`, `text_map`, `json`, `ordering`, `html`: texts, maps of texts, JSON by `serde_json`,
    stable sorting, escaping.
  - `device`, `records`: devices as the supervisor reports them, and what is kept beside them.
  - `links`, `autolink`, `correlate`, `unify`: which records are interfaces of one device.
  - `category`, `fabrics`, `docs`, `rooms`, `history`, `events`, `energy`, `health`, `lights`,
    `mobile_ble`, `analyzer`, `ping`, `startup`, `matterd`: the rules behind the requests.
  - `pages`: the pages themselves.
- `tests/` runs the library on concrete values.
- `app/` holds the program around the library: the HTTP server, files, sockets and the Matter
  stack. It needs the crates of the HomeNode platform.
