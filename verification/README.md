# oteltap

An embeddable tap for OpenTelemetry data, for integration and end-to-end tests. A tap receives
traces, logs and metrics over OTLP/HTTP with protobuf bodies on a local port. Tests poll it for single
spans, log records and metrics by handle, through a C interface. It can print each item as a line of
JSON, and it can pass every request on, byte for byte, to another OTLP/HTTP endpoint.

## Layout

- `src/` is the library. It decides everything and holds all state, and Verus proves its contracts.
  - `item`: items, and listing those of a request.
  - `channel`: first-in, first-out queues, and sending items to several of them.
  - `otlp`: the signals, decoding export requests, and encoding the answers.
  - `otel_receiver`: routing requests, acting on them, and answering them.
  - `otel_reemitter`: passing requests on.
  - `printer`: lines of JSON.
  - `ffi_functions_flags`: the flags of a receiver.
  - `ffi_functions`: the registry of running taps; starting, stopping and polling them by handle.
  - `laws`: what holds over any course of events.
- `app/` holds the HTTP server, the HTTP client, the printer threads, the clock and the C interface.
- `tests/` exercises the library on concrete requests.

## Waiting

The library never waits. A poll without an item, or a poll whose turn it is not, is told to wait and to
call again, and so is a call that stops a tap while polls wait for its items. What arrives while a poll
waits is for that poll, even if the tap is being stopped. No poll is told to wait past its
timeout.

## What is trusted

Items of other crates, and one function of the standard library, are called through small functions
whose contracts are not proved: decoding and encoding OTLP messages with `prost`, rendering items with
`serde_json`, parsing URLs with `reqwest`, and checking UTF-8. Each says in its documentation what is
claimed of the call.

## Status codes

| Code | Meaning |
|---|---|
| `0` | success |
| `-1` | the receiver did not start |
| `-2` | no receiver has the handle |
| `-3` | an output pointer is null, or a text is not UTF-8 |
