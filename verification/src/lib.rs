//! A process-wide object registry: heterogeneous application objects are
//! registered once during a build phase, looked up by a (name, type tag)
//! identity, and handed out through non-owning reference handles — an eager
//! handle resolved at creation, and a lazy handle resolved exactly once on
//! first access.

pub mod error;
pub mod handle;
pub mod meta;
pub mod object;
pub mod registry;
pub mod weakref;
