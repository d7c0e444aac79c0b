//! Decoding and encoding of request-carried values.

pub mod headers;
