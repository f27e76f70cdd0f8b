# plandb (verified core)

Verus-verified library behind the `plandb` task-graph tool and the small
character-level GPT that ships beside it.

`src/` is the verified library:

- `tokenizer` — the character-level tokenizer (sorted vocabulary, encode,
  decode) with its round-trip and ordering laws.
- `model` — the model configuration, its parameter count and parameter
  layout, and the generation context window.
- `layout` — shape sizes, transposition and row lookup of row-major tensors.
- `models` — task/project statuses and task/dependency kinds, with their
  text forms.
- `cli`, `table`, `split` — status icons and colors, value parsing, the
  column layout of printed tables, splitting of dependency paths, the
  decision of the `watch` loop.
- `project`, `scope`, `db_path`, `artifact` — choosing the project a command
  works on, `use` scope navigation, the default database path, and the
  decisions of the artifact commands.

`app/` holds what depends on the terminal, the environment, the file system
or floating point: clap definitions, printing, `NO_COLOR`, the database path
search, the lookups behind project resolution and `use`, the `f32` tensors,
the GPT itself and its training loop.
