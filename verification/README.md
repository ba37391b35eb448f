# butterfingers

Fingerprint attendance: enrolling employees' prints, verifying and identifying
scanned fingers, and recording attendance in a MySQL database.

- `src/` is the verified library. It holds the application's rules and the
  texts it sends to the database: the scanner sessions of the commands (`session`), the preloaded print list
  (`prints`), attendance records and the attendance daemon's retry count
  (`attendance`), employee listings and the enrollment prompt (`employees`),
  the scanner daemon's protocol (`daemon`), connection settings and enrollment
  identifiers (`config`), the simpler commands (`commands`), and the text
  helpers they share (`text`, `response`).
- `app/` drives the scanner (libfprint), the database (sqlx) and the network:
  it performs what a library function asks for, hands the outcome back, and
  writes the answers as JSON.
- `tests/` runs the library on concrete inputs.
