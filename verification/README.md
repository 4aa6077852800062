# db_socket

A small toolkit for a database reached over a websocket, verified with Verus.

- `src/` is the verified library: SQL text generation with value escaping,
  the request and reply records, `id|payload` framing and reply routing, and
  the decisions of the server-side table operations. Loops that wait on a
  socket or a store (the server's socket loop, the mock server's loop, the
  stepping of SQLite statements, the exchange of two rows' values) are given
  as step functions from event to next action. Laws are public proof
  functions named `law_*`.
- `app/` holds the edges: JSON and bincode encoding of the records, the loops
  that run the step functions against a real socket or thread, and the
  browser socket clients.
- `tests/` runs the library on concrete values.
