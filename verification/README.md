# comchat

A chat-style terminal for serial ports (COM / TTY / USB-serial) and a batch
runner for command files.

- `src/` is the library, verified with Verus: the domain model, command
  history and its file format, configuration profiles, log routing, batch
  planning, the serial workers' decisions, the port registry, and the whole
  state of the user interface (tabs, typing, history browsing, serial events,
  echo handling, the port selector and the rendered text lines).
- `app/` is the program around it: terminal drawing with `ratatui`, keys from
  `crossterm`, serial ports through `serialport`, worker threads, the
  command line (`clap`), and the configuration, history and log files
  (`toml`, `dirs-next`).
- `tests/` exercises the library on concrete values.
