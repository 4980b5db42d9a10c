# message_row

What the row of a notification shows, worked out by verified code.

- `src/` is the library. From a message and what the desktop offers it works out the cells of
  the row, the Pango markup of Markdown bodies, the pictures to fetch and the addresses that
  they are never fetched from, the buttons, the badges and the style classes. Each function
  states in its contract what it gives, and Verus proves it. The functions named `law_..` state
  what holds of the library as a whole.
- `app/` is the GTK widget around it: it resolves host names, downloads pictures, asks for
  translations and the local time, and builds the widgets that the library describes.
- `tests/` runs the library on concrete values.

The library rests on a few outside calls, each behind one item whose contract is trusted and
whose doc comment says what is claimed: parsing Markdown with `pulldown_cmark`, parsing URLs
with `url`, the range of dates of `chrono`, and appending a character to a `String` of std.
