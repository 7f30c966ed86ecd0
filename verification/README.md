# kaishi

A terminal chat client for the Hermes agent, with its logic verified in Verus.

- `src/` is the verified library: the conversation state and its
  transitions (`app`, `keys`, `commands`, `sessions`), the input line and
  its UTF-8 cursor (`editing`, `text`), the Hermes API as data and the
  decoding of its event stream (`api`, `stream`), the terminal reader's
  decisions (`event`), the geometry and text of the overlays (`ui`), and
  properties that span operations (`laws`).
- `app/` is the program around it: terminal setup, HTTP requests, the
  event loop and drawing. It performs the `Effect`s the library returns
  and reports their outcomes back.
- `tests/` exercises the library on concrete values.
