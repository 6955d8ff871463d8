# frontend

The logic of a book server's web frontend, verified with Verus: the book
reader (layouts, frames, pages, sections, reading progress, gestures), the
plan of which chapters to fetch, the paged book lists, the dashboard, the
navigation search, the page routing and the paths of the server's API.

- `src/` is the verified library. Each module states its operations as
  contracts over spec functions; `src/laws.rs` holds the properties that
  span several operations.
- `tests/` runs the library on concrete values.
- `app/` is the browser side: it reads the DOM, measures pages, sends
  requests and performs the actions the reader records.
