# clap_binary_enum

The verified core of the `YesNoArg` derive, which turns a two-variant enum
into a pair of mutually exclusive clap flags (`--network` / `--no-network`).

- `src/` (Verus): the derive input as plain values (`model`), the
  `#[yesno(...)]` helper attribute (`attrs`), the naming and validation rules
  (`derive`), kebab-case and other text operations (`text`), the choice that
  the generated `get` makes between the two flags (`flags`), and properties of
  every accepted derive (`laws`).
- `app/`: reads the item with `syn`, hands the library its plain model, and
  writes the generated code with `quote`.
