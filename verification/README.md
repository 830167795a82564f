# ferrum

A terminal HTTP client: collections of saved requests, environments whose
variables fill `{{NAME}}` placeholders, a request editor, a response viewer
and a history log.

The crate is a Verus project.

- `src/` is the verified library: the data model, the key-by-key behaviour of
  the application state (`App::handle_event` and the handlers under it), how
  a request is turned into a task for the HTTP worker (placeholders, query
  string, authentication header, percent- and base64-encoding), the checks
  the worker makes on a task and on a body, the listing order of saved files,
  how much history is kept, and what the screen shows (labels, colours,
  masks, JSON detection). Work the library cannot do itself (sending,
  writing files, highlighting) it asks for through `App::take_effects`.
- `app/` is the terminal program around it: the event loop, the key reader,
  the HTTP worker (reqwest), file storage (serde_json under the user's config
  directory), syntax highlighting (syntect) and drawing (ratatui).
- `tests/` runs the library on concrete inputs.
