# scalar_surreal

Document storage on SurrealDB, with its logic verified by Verus.

A document is kept in three tables: one for its published version, one for its draft
and one for what is known about it. The library in `src/` decides what is sent to the
database and what is made of the answers:

- `expr` compiles conditions on fields to SurrealQL and bindings; `validation` asks
  questions with them about the other documents of a kind.
- `document` plans drafting, publishing, unpublishing, removing and reading documents;
  `script` and `text` write the statements, `binding` names the values sent along.
- `plan` is the list of steps of an operation, and a run of it that stops at the first
  failure.
- `record` turns records into items and back; `wrapper` and `number` convert values by
  way of their serialized form; `json` carries JSON.
- `session` makes connections and signs users in; `error` tells what a failure means.
- `setup` defines the tables, the fields and the access rules.

`app/` performs the steps with the `surrealdb` client. `tests/` runs the library.
