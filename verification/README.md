# drawnotes

The verified core of a small note-taking application (notebooks holding notes,
stored in SurrealDB), written in Verus.

- `src/model.rs`: notes, notebooks, note-count rows, the "All Notes" pseudo notebook.
- `src/count.rs`: count events and the note counters that follow them, with the
  laws that keep the "All Notes" counter equal to the sum of the notebook counters.
- `src/ui.rs`: what the interface decides: the selection and how it changes on a
  click, item styles, adding, editing and deleting notes, the notebook bar's
  field and pending count event, keys in the
  new-notebook field, the "All Notes" total, the loading indicator's class.
- `src/server.rs`: what the server functions decide: store statements, the answer
  of a store, a missing note, note counts attached to notebooks.
- `src/record.rs`: record ids parsed by SurrealDB and the note-summaries query.
- `app/`: a command-line front end (list, create, edit, delete) that talks to the
  database and leaves every decision to the library.
- `tests/`: tests of the library on concrete values.
