//! Change-event envelopes for typed resources: the data model, the capability
//! traits that build events from domain values, the wire text of an event, and
//! the publish/subscribe interfaces that carry events.

pub mod model;
pub mod capability;
pub mod wire;
pub mod transport;
