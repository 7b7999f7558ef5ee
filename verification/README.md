# solito

The core of the Solito terminal emulator as a Verus library: the screen model that
escape sequences edit, the rules of the terminal view, copy mode, tabs, keyboard and
mouse input, each function stated by a contract and proved by Verus.

## Layout

- `src/screen/`: cells and styles (`cell`), SGR colours (`sgr`), decoding of CSI, ESC and
  OSC sequences (`control`), the grid with its cursor and settings (`buffer`), row
  operations (`line`), the scrollback storage (`lines`) and the screen editor that
  applies every sequence (`editor`).
- `src/view/`: what the renderer decides without pixels: the viewport, text damage,
  copy-mode highlights, the tab bar and the terminal view state.
- `src/ui/`: copy-mode motions and selection, tabs, key and mouse handling, the shell
  session messages and the window's command handling (`dispatch`).
- `src/state.rs`: the terminal fed by a shell's byte stream: the `vte` parser's reports,
  applied to the screen chunk by chunk, with the history trimmed after each chunk.
- `src/mouse.rs`, `src/size.rs`, `src/width.rs`: mouse reporting modes and their
  encoding, terminal sizes, and character widths (through `unicode-width`).
- `tests/`: tests of the library, run with the outside crates linked.
- `app/`: a text-mode program around the library: it runs a shell in a pseudo-terminal
  (`portable-pty`), hands its output to the library's terminal state, prints the screen,
  and carries out the actions that `ui::dispatch::handle_command` returns (lines `::new`,
  `::close`, `::next` and `::prev` work the tabs).

## Checking

Verus verifies `src/`; the tests run with `cargo test`.
