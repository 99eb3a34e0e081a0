//! Client-side building blocks for the Stripe REST API: request descriptions,
//! retry policies, the request executor and the typed parameter and object
//! models of the individual resources.

pub mod text;
pub mod json;
pub mod status;
pub mod retry_policy;
pub mod error;
pub mod request;
pub mod executor;
pub mod laws;
pub mod ids;
pub mod types;
pub mod resources;
pub mod objects;
