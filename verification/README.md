# rui

An immediate-mode user interface library whose view logic is verified with
Verus.

Views form a tree that is walked for every event. Each view is named by the
path of child indices that leads to it, and its id is a hash of that path.

## Layout

- `src/` — the verified library.
  - `id`, `context`, `event`: view ids and paths, the per-window context
    (touch owners, focus, cursor grab, title, the state kept for each view),
    and events.
  - `view`: the view protocol (`ViewCore`, `DynView`) with a model of each
    walk: hit testing, menu commands, kept ids, accessibility nodes and event
    handling.
  - `views/`: the views (stacks, lists, gestures, focus, commands, state,
    …), each with the spec functions its walks are held to.
  - `event_loop`: routing of an event through the tree, command and
    accessibility collection, and cursor-grab decisions.
  - `access`: accessibility nodes, built with `accesskit`.
  - `text_editor`, `utf8_pos`: the text editing model (cursor, selection,
    keys) on the byte positions of UTF-8 text.
  - `state_store`, `url_query`: a keyed state store and URL query parsing.
- `tests/` — tests run against the compiled library.
- `app/` — layout, drawing and the window event loop, which work with
  floating-point geometry and the windowing and GPU crates.
