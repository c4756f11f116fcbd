# confcosmos

A terminal tool that keeps scattered configuration files in one place: it
records named entries (origin path, target path) in
`~/.config/confcosmos/confcosmos.toml` and creates the symbolic links
`target_path -> origin_path` on request.

- `src/` is the verified library: the path rules (`config`), the ordered
  table of entries (`table`), the page state machines (`pages`), and the
  application state with the key dispatch (`app`). A key press returns the
  effects to perform (save the configuration, create a directory, create
  links); the library never touches the file system.
- `app/` is the terminal program: it reads the configuration file, draws the
  pages with ratatui, turns crossterm key events into `Key`s, and performs the
  effects.
- `tests/` exercises the library on concrete inputs.
