//! Discovery of Windows event-log channels and retrieval of their configuration.
//!
//! The native event-log service is reached through size-negotiated, handle-based
//! calls. This library holds every decision of that protocol as verified code over
//! plain values: which call to make next, how large a buffer to offer, how a filled
//! buffer is read as a tagged variant, and how the variant becomes a typed value or a
//! JSON document. The caller performs the native calls and reports their replies.

pub mod buffered;
pub mod bytes;
pub mod channels;
pub mod handle;
pub mod identifiers;
pub mod json;
pub mod properties;
pub mod text;
pub mod variant;
