//! Trust-boundary core of a platform security service.
//!
//! Two subsystems live here: the front-end request pipeline, which
//! authenticates a deserialized request and routes it to a dispatcher while
//! isolating failures at each stage, and the key identity mapping, the
//! durable association between an application's logical key names and the
//! provider-side key material identifiers and attributes.
//!
//! Transport framing, concrete cryptographic providers and the dispatcher's
//! internal routing are external collaborators: the pipeline works on the
//! outcome of the read step and on the values those collaborators return.

pub mod authenticators;
pub mod front_end;
pub mod key_id_managers;
pub mod requests;
