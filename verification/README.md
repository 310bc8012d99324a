# openubl_projects

The project endpoints of an e-invoicing server, as a verified library.

- `src/` (Verus): the `project` row and its writes (`entity`), the transfer
  objects (`dto`), listing pagination (`pagination`), the project context and
  its update (`context`), the texts that name a missing project (`text`), the
  HTTP answers (`reply`), the decisions of the endpoints (`handlers`) and the
  properties that relate them (`laws`).
- `app/`: the sea-orm queries and actix-web handlers that run those decisions
  against a database.
- `tests/`: tests of the library on concrete values.
