//! Loading of API credentials (application key, application secret and
//! consumer key) together with the API host of an endpoint, from a TOML
//! configuration text or from explicit parameters.

pub mod endpoint;
pub mod document;
pub mod credential;
