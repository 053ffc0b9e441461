//! A small capability layer for peer-to-peer wireless advertising.
//!
//! The library models an advertisement publisher as a capability with
//! `start` and `stop` operations, aggregates one publisher and an optional
//! socket in a [`common::Node`], and wraps a platform's native error in a
//! single-variant error type. Platform bindings perform their native calls
//! outside the library and hand every outcome to [`win::wrap_outcome`],
//! which passes success and failure through unchanged.

pub mod common;
pub mod scripted;
pub mod win;
