//! Validation, classification and routing of the signal readings that vessels
//! report.
//!
//! A request names a vessel, an instant and a set of named raw values.  Each
//! value is classified against the kind that the signal registry declares for
//! its name, and is then destined either for the raw store (accepted) or for
//! the filtered store (quarantined, with a reason).  The `ingest` module
//! drives one request as a state machine whose steps the caller performs
//! against the stores; every decision of that machine is specified and proved.

pub mod auth;
pub mod classify;
pub mod config;
pub mod health;
pub mod ingest;
pub mod registry;
pub mod rejection;
pub mod request;
pub mod text;
pub mod timestamp;
pub mod value;
