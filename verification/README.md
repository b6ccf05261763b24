# card_lists

Builds Scryfall searches for card pools, counts the copies of each card found, and
writes each card list with a report of the requests made.

- `src/` is the verified library: the query model and the pools (`query`, `specifics`,
  `query_operations`), the orders (`instructions`), the copy count and the card lines
  (`card_entry`), the list being downloaded (`download`), the report and its text
  (`timestamp`, `number_text`).
- `app/` runs the searches with the `scryfall` crate, times and paces the requests, and
  writes the files.
- `tests/` runs the library on concrete values.
