//! A safety-typed layer for implementing character-style miscellaneous
//! devices against a host device-management subsystem.
//!
//! A driver author supplies a small set of callback operations (open,
//! release, ioctl, compat ioctl, fdinfo reporting) through the
//! [`ops::MiscDevice`] trait.  The layer itself handles:
//!
//! * building and registering the device-description record with the host
//!   subsystem ([`registration`], [`host`]),
//! * synthesizing the host's callback table from the operations the author
//!   actually overrode ([`vtable`]),
//! * moving the author's per-session owned value into and out of the
//!   host-owned opaque slot exactly once per file session ([`foreign`],
//!   [`session`]),
//! * translating each operation's result into the host's status encoding
//!   ([`error`]).
//!
//! The per-session ordering the host guarantees (one open first, one
//! release last) is captured and proved as a small state machine in
//! [`lifecycle`].  [`sample`] holds reference device implementations,
//! one per interesting shape of the capability descriptor, and a
//! verified end-to-end pass through the whole layer.

pub mod error;
pub mod file;
pub mod foreign;
pub mod host;
pub mod lifecycle;
pub mod ops;
pub mod registration;
pub mod sample;
pub mod session;
pub mod vtable;
