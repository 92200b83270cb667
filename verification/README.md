# nano_snipper

The verified core of Nano Snipper, a keyboard-first screenshot tool: the
decisions and pixel work of its daemon, capture overlay, action bar,
annotation editor, capture history, settings UI and benchmark harness,
written in Verus with their contracts proved.

- `src/` — the library. Each module states what its functions do over
  mathematical models (sequences of bytes and characters, integers) and
  proves it: IPC framing (`ipc`), the overlay's selection
  (`overlay`), the action bar (`action_bar`), the editor's toolbar, keys,
  text entry and undo history, and the editing session (`editor`,
  `annotate`, `session`), rasterisation,
  pixelation and the bitmap font (`raster`, `pixelate`, `glyph`), pixel
  buffers, clipboard images and image files (`pixels`, `dib`, `imaging`),
  history paging, queries and retention (`history`, `store`,
  `retention`), the settings UI (`ui`), the daemon's message handling and
  tray (`daemon`, `hotkeys`), key conversion (`keys`) and the benchmark's
  command line (`bench`).
- `tests/` — tests of the library on concrete values.
- `app/` — the portable program around it: configuration file, history
  database, IPC transport, and the floating-point geometry of annotations.
