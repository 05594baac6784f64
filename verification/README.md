# file_scanner

A service that receives files, hashes them and scans them in the background.

- `src/` is the verified library: the scan status and verdict names and
  their parsing, the file-scan and queue-item records with the rules by
  which workers take and release them, the hashing of file contents, the
  step functions of the hashing and scanning workers, and utilities for
  time, e-mail addresses, random tokens, identifiers and paths.
- `app/` holds the database queries, the HTTP route, the worker loops and
  their schedule, and serialisable copies of the records.
- `tests/` exercises the library.
