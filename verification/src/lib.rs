//! A unified error type for reporting failures from three sources: a missing
//! contextual argument, a worker-thread launch failure at the I/O level, and
//! any other recoverable failure. The type carries the cause's textual forms
//! and renders them exactly as specified, for users (display) and for logs
//! (debug).

pub mod error;
