# stdiobus

A client library for stdio_bus, a message bus that routes JSON-RPC traffic
between clients and pools of worker processes. The bus runs either in
process (the native C library) or in a Docker container reached over TCP.

## Layout

- `src/` is the verified library; its public functions carry
  `requires`/`ensures` contracts that Verus proves:
  - `state`, `lifecycle`, `stats`: bus states, the transitions every backend
    shares, traffic counters and the native handle slot;
  - `error`: error codes, messages and retryability;
  - `types`, `builder`: options, configuration validation, its JSON text
    and reading it back, and the builder that turns settings into a plan;
  - `json`, `message`, `text`: a plain JSON value model with its parsing
    and string quoting, JSON-RPC messages, decimal rendering and parsing,
    and white-space trimming;
  - `client`, `pending`: what a request sends, how streamed chunks are
    aggregated per waiting request, and what a finished request answers;
  - `backends`: backend selection and the decisions of the Docker and native
    backends (command lines, retries, error texts);
  - `ids`, `duration`, `ffi`: identifiers, durations and the C interface's
    plain types.
- `app/` is the runtime around the library: async backends, process and
  network I/O, the FFI calls, and serde copies of the library's types.
- `tests/` holds the tests, run against the compiled library.
