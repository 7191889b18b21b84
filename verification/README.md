# text_thread_history

The history panel of saved text threads. It lists threads from the newest to the oldest under
headings (Today, Yesterday, This Week, Past Week, All), or the threads that a fuzzy search found,
keeps one of them selected, opens and deletes threads, and says what each row shows.

- `src/` is the library, verified with Verus. It holds the state of the panel and decides what is
  listed, selected and shown. What it asks of the thread store, the fuzzy matcher and the time
  formatter it returns as plain values. chrono and `time` are called behind small functions whose
  contracts are trusted.
  - `calendar`, `clock`, `timestamp`: dates, points in time, and the texts asked of the formatter.
  - `bucket`: the headings.
  - `thread`, `text`, `paths`: threads, their titles, their order, and finding one by its path.
  - `items`, `selection`: the rows of the list, and which row a selection lands on.
  - `history`, `rows`: the panel, and what it shows.
  - `laws`: what holds of the panel over several steps.
- `app/` draws the panel in its window and carries out what the library asks for.
- `tests/` runs the library on concrete values.
