//! Identity and classification scheme for a storage node.
//!
//! A node stores two categories of content: content-addressed immutable
//! objects and versioned mutable objects. This crate defines
//!
//! * [`identifier::Identifier`] — a discriminated address that uniquely
//!   names a stored object without carrying its payload, and
//! * [`envelope::Envelope`] — a discriminated container that carries an
//!   object's full payload and can derive its own identifier,
//!
//! together with a deterministic byte encoding of both ([`codec`]), so that
//! collaborators can persist or transmit identifiers and envelopes without
//! ambiguity. Everything else (storage, replication, transport, consensus)
//! is an external collaborator that consumes this scheme.

pub mod address;
pub mod codec;
pub mod envelope;
pub mod identifier;
pub mod object;
