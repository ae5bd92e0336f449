# wasm_bindgen runtime, verified

The runtime half of the JavaScript bindings: handles to values in the host's
heap table, the borrow-flag protocol that refuses re-entrant borrows of objects
shared with the host, and the decisions taken on the host's answers.

- `src/` is the verified library: `value` (handles and their reserved
  slots), `host` (what the host's answer codes mean, debug representation),
  `borrow` (the flag protocol and its laws), `refcell` (a cell that follows the
  protocol), `rt` (pointer check and allocation plans), `clamped`, `fatal`.
- `app/` makes the calls into the host, holds the interior-mutable cell shared
  with it, aborts on fatal conditions and does the serde conversions.
- `tests/` exercises the library.
