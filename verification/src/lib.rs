//! An embeddable tap for OpenTelemetry data.
//!
//! A tap receives traces, logs and metrics over OTLP/HTTP with protobuf bodies, keeps each item
//! until it is polled, prints it as a line of JSON where that is asked for, and passes the requests
//! on to another endpoint where one is given. This library decides all of that and holds the
//! state; sockets, clocks and threads are its caller's.
pub mod channel;
pub mod ffi_functions;
pub mod ffi_functions_flags;
pub mod item;
pub mod laws;
pub mod otel_receiver;
pub mod otel_reemitter;
pub mod otlp;
pub mod printer;
