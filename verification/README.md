# polars_rb_io

The decision logic of a Ruby binding's data frame readers and writers (CSV,
Parquet, JSON, NDJSON, IPC, IPC stream, Avro), verified with Verus.

- `src/text.rs`: first byte of a string, substring search (as `str::contains`).
- `src/reader.rs`: the options each reader hands to the engine, from its arguments.
- `src/writer.rs`: where each writer sends its bytes; the CSV writer's options.
- `src/json.rs`: how a failed column-oriented JSON parse is answered (a small state
  machine), and which encoder a JSON write uses.
- `src/laws.rs`: properties proved over all inputs.
- `app/`: the Ruby-facing `RbDataFrame` methods, which read and write files and Ruby
  objects and call the engine, taking the decisions above from the library.
