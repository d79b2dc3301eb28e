//! Session-authenticated admission of requests, and a uniform response envelope.
//!
//! The crate holds the decisions of a small posting backend: which requests
//! are admitted, which rule failures a form produces, which envelope and HTTP
//! status an outcome is answered with.  Waiting on the session store or on the
//! database is left to the caller, who feeds the results back in as events.

pub mod credential;
pub mod handlers;
pub mod json;
pub mod model;
pub mod response;
pub mod route;
pub mod schema;
pub mod session_auth;
pub mod validation;
