//! Backend-agnostic X11 event model and a validated builder for outgoing
//! client messages (ICCCM/EWMH window-manager protocols and XEmbed).
//!
//! The event side is a closed set of value types that a backend translator
//! fills in; the builder side turns a semantic [`event::ClientMessageKind`]
//! into a wire-ready [`event::ClientMessage`], resolving the atom names it
//! needs through an injected [`xconnection::XAtomQuerier`] capability.

pub mod bindings;
pub mod data_types;
pub mod event;
pub mod xconnection;
