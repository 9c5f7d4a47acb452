# easy_console

A serial-port console for the terminal: it sends typed lines (with escapes
and a configurable line ending), shows received bytes as text, hex or both,
logs traffic to a file, searches the log with regular expressions, and plays
macros.

- `src/` is the verified library: the console's state and every reaction to
  keys, port events and the results of outside work (`dispatch`, `handlers`,
  `commands`, `control`), line framing, escapes, history, search, settings,
  profiles, the log-file records, and the text and layout of the screen
  (`view`).  Reactions that need the outside world return `Action`s.
- `app/` is the program: command line, terminal, drawing, the port threads,
  the log file, the clipboard, and the loop that performs the actions.
