# tshare

The rules of TShare, a service for temporary text and file shares, as a
library verified with Verus, and the server around it.

- `src/` — the verified library: share access (password, IP lock, view and
  download limits, one-time shares), creation of the stored record (hashed
  secrets, encrypted note, deletion token), the upload checks (names,
  extensions, content sniffing), rate-limit plans and their counters, the
  storage configuration read from the environment, URL and header building,
  and the number formatting of the pages. Each public function states what
  it returns in its contract; laws that span functions are public proof
  functions whose names start with `law_`.
- `tests/` — tests of the library on concrete values.
- `app/` — the HTTP server: Axum handlers, Redis and SQLite access, file
  transfers, HTML rendering, and the background cleanup job. It reads
  requests and performs I/O; every decision it acts on comes from `src/`.
