# homecat

A home catalogue of books, verified with Verus.

- `src/model.rs`: books, their authors and status, calendar dates, and a
  builder for books.
- `src/catalogue.rs`: searches, the `Catalogue` trait, and `Cache`, which keeps
  a copy of another catalogue's books and answers searches from it.
- `src/text.rs`: the text shown for a book (authors, status, detail lines).
- `src/gui.rs`: the state behind the screens and how each message changes it.
- `src/laws.rs`: properties that hold across operations.
- `app/`: the window (iced) and the SQLite catalogue (rusqlite, serde_json).
