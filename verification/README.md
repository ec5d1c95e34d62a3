# adget

A command-line client for the All Debrid service: it unlocks a premium link,
or uploads a magnet and waits until the service has it, then hands the
unlocked link to wget (or, with `-n`, only prints it).

- `src/` is the library, verified with Verus: the request URLs (`api`), the
  reading of the service's replies (`response`, `types`), the progress lines
  (`progress`), text helpers such as trimming and decimal numerals (`text`),
  and the decisions taken between requests (`flow`).
- `app/` is the program: argument parsing, the configuration file, the HTTP
  requests, JSON decoding, printing, sleeping and starting wget.
- `tests/` runs the library on concrete values.
