//! A verified dispatch pipeline for a native "open file" dialog service.
//!
//! The service listens on one message channel, validates and decodes each
//! inbound call, resolves the caller's window handle to a native window
//! reference, defers the platform dialog to a later run-loop turn, and sends
//! exactly one reply per request.

pub mod laws;
pub mod linux_adapter;
pub mod reply;
pub mod request;
pub mod resolver;
pub mod service;
pub mod value;
pub mod windows_adapter;
