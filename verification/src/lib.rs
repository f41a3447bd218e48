//! A verified model of the buffer seam between a memory-unsafe embedding and a
//! managed host runtime.
//!
//! The host runtime owns a garbage-collected heap of buffer objects and an
//! exception flag; the embedding reaches that heap only through boundary calls
//! that return a status code.  The [`host`] module models that runtime: an
//! explicit heap of buffer objects, opaque handles, raw byte ranges, and the
//! boundary calls themselves, each with a full contract.  The [`buffer`]
//! module is the adapter built on top of it: allocation (zeroed and
//! uninitialized), adoption of embedding-owned storage with a finalizer, and
//! re-exposure of a live buffer as a view — the status dispatch of every
//! operation is verified, and only a pending host exception is ever surfaced
//! as a recoverable failure.

pub mod buffer;
pub mod host;
