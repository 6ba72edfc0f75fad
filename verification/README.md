# device_checkout

A small web service that lets a team reserve and return shared devices.

- `src/` is the verified library: the records and the rules forms must meet
  (`models.rs`), what every page and api endpoint decides between database
  calls (`routes.rs`), the settings and the command line (`utils/`), and the
  text facts they rest on (`text.rs`).
- `app/` runs the service: command line, logging, the SQLite database through
  diesel, and the http server through rocket. Each handler reads the request
  and the database and lets the library decide what to write and what to
  answer.
- `tests/` exercises the library on concrete values.
