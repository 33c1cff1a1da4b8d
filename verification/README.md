# focus_passion

The request logic of a small online task manager, verified with Verus.

- `src/` is the library. `api/` holds what each task endpoint decides from
  a request (the caller, the task built from a form, the database operation
  to issue) and how it answers once the database has replied; `db.rs`
  describes those operations and what their filters select; `store.rs`
  how a task is kept as a document and what a change does to it; `server.rs` holds the greeting pages, the main page plan and
  the start-up settings; `text.rs` the character-level work (tags, trimming,
  decimal numbers); `ids.rs` the calls into `nanoid`, `uuid`, `seahash` and
  `chrono`; `laws.rs` the properties that span the endpoints.
- `app/` is the Rocket server: cookies, forms, templates, and the MongoDB
  calls that carry out the operations the library decides on.
