# heappy

A query service over directories of Parquet files exported from JVM heap dumps.

- `src/` is the library. Its functions carry contracts that Verus proves: the
  framing of messages, the conversation between client and server, the life of
  a server, the grouping of files into database views, the conversion of rows
  to JSON, the text that the commands print, and the head of a heap dump. What
  holds of whole runs and of several functions together is stated in the `law_`
  proof functions.
- `app/` is the program around it. It performs the actions that the library
  decides on (files, sockets, processes, the database) and reports back what
  came of them.
- `tests/` runs the library on concrete values.

The library calls `serde_json`, `sha2` and `jvm-hprof` through functions marked
`external_body`, which stand in `src/json.rs`, `src/engine/paths.rs` and
`src/hprof.rs`.
