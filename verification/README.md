# uikit

Page routing, shared state and widget logic for an iced design kit.

`src/` is a Verus-verified library:

- `history` — back/forward navigation history over page ids.
- `route` — the router's bookkeeping (`RouteTable`): pages, their
  lifecycle (drop or suspend), the shown page, the history; every
  navigation returns the steps to perform on page instances and the
  snapshots to drop.
- `type_map` — a map keyed by `TypeId`, used for the shared-state
  registry and the page snapshots.
- `appstate` — `AppState<T>`, a shared, lockable handle.
- `stack`, `border`, `press`, `cached`, `input`, `content` — the
  decisions of the widgets: page selection of the sliding stack, press
  and focus state, snapping and recording policies of the texture cache,
  input borders and the error bubble's place, button content.
- `kit` — the Sonata kit's handles.

`app/` holds the iced widgets, the page instances and the registry of
`dyn Any` values, which call the library for every decision.
