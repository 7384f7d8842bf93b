# maeve

The verified core of a small autonomous agent, written in Verus.

- `src/` is the library. Its functions are verified, except two thin trusted
  wrappers (`text::to_lowercase` over `str::to_lowercase`, and
  `timestamp::parse_rfc3339` over `time::OffsetDateTime::parse`) whose
  results are named, not proved:
  - `json`: the JSON document model that tools read and answer in;
  - `text`: character-level text operations (substring search, equality, lowercase);
  - `timestamp`: instants as integers and their RFC 3339 reading;
  - `store`: memory notes, the `NoteStore` trait, and the search rule of the local store;
  - `agenda`, `goals`, `config`, `context`: the agent's state;
  - `memory_tools`, `tools`: the tools, their registry and dispatch by name.
- `app/` is the command-line server and the outside world: note files on disk,
  `serde_json` conversion, HTTP pages.
- `tests/` exercises the library on concrete values.
