//! Session-bootstrapping relay in front of a single upstream web application.
//!
//! The upstream only answers its JSON API inside a browser-like session: a
//! token published in its landing page has to be echoed back in a header,
//! after two priming requests. This library holds that protocol as verified
//! logic: reading the token out of the page, describing each upstream
//! request, turning the upstream's last answer into the caller's response,
//! and a state machine that orders the steps. The HTTP traffic itself is left
//! to the caller, which performs each request the machine asks for and feeds
//! back what came of it.

pub mod text;
pub mod error;
pub mod extract;
pub mod upstream;
pub mod exchange;

pub use error::ProxyError;
pub use extract::extract_credential;
