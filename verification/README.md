# clip-bridge

Synchronises clipboard contents between X11 and Wayland.

- `src/` is the library, verified with Verus. It holds every decision: the formats, what a content
  is and when two are equal, when a content is forwarded, how selection requests of other X11
  clients are answered, how a selection's content is fetched from its owner (at once or in pieces),
  and how the two event loops turn.
- `app/` is the program around it. It talks to the X server and the Wayland compositor: it performs
  the commands and queries that the library hands out and feeds the replies back.
- `tests/` runs the library against scripted replies.

## Formats

Text as `text/plain;charset=utf-8`, `text/plain` and `UTF8_STRING`; images as `image/png`,
`image/jpeg` and `image/jpg`, passed on byte for byte.

## What is proved

Each function states what it returns for every input. The proof functions whose names begin with
`law_` state what holds across functions: that a request is answered exactly once, that what is told
is served, that what is written is read back, that an echo is not forwarded, that every task ends.

`src/foreign.rs` holds what is relied on and not proved: the calls into `compact_str`,
`xxhash-rust`, `x11rb` and the standard library.
