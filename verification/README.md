# home_library

The verified core of a home book-inventory web service, and the service around it.

`src/` is the library, proved with Verus:

- `query`: the dynamic query engine — filter trees and suffix operators
  (`_contains`, `_starts`, `_gte`, `_empty`, ...) turned into SQL with bound
  arguments, the sorting whitelist, paging, listings, exports and autocompletion.
- `books`, `patch`: the statements that create, replace and partially update books
  and the requesting user's reading data.
- `catalog`: lookup and search URLs for Google Books and Open Library, and the
  metadata read from their JSON answers, with the fallback between the two.
- `export`: cell texts, CSV, XML and PDF-table layouts, date formats.
- `covers`, `access`, `responses`: cover uploads and their files, library
  permissions, answer statuses.
- `sql`, `time`, `text`, `json`, `model`: the models the contracts are stated over
  and the calls into `sqlx`, `chrono`, `uuid`, `rust_decimal` and `image`.

`app/` is the HTTP service (axum, sqlx, reqwest, genpdf): it parses requests, runs
the library's statements and requests, and sends the answers. `tests/` exercises the
library on concrete values.
