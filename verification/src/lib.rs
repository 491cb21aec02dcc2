//! Verified core of a webhook-style interaction service: hex decoding and
//! signature gating for inbound callbacks, a typed dispatcher over event
//! kinds, the report-command handler with its rendering rules, and the
//! startup command declaration with its context-field injection.

pub mod authenticate;
pub mod hex;
pub mod interact;
pub mod model;
pub mod registrar;
pub mod text;
pub mod validate_signature;
