# rustroom

A photo editor (catalogue, non-destructive slider edits, histogram) whose decision
logic is a verified Verus library.

- `src/` — the verified library:
  - `adjustments`: the slider panel state and its neutral default;
  - `pipeline`: the edit stack built from the sliders and the list of masked edits the
    renderer runs for it;
  - `worker`: how the background edit worker folds a batch of requests into at most one
    render;
  - `session`: when the interface sends a new slider state;
  - `histogram`: per-level bin counting;
  - `paths`, `models`, `library`, `import`, `metadata`, `text`: catalogue records, image
    addresses, menu labels, import bookkeeping, preview names and the metadata JSON.
- `app/` — the desktop program: the egui/eframe interface, the SQLite catalogue, file and
  EXIF reading, and the floating-point pixel arithmetic of the edits and masks.
- `tests/` — tests of the library on concrete values.
