//! A middleware core that renders a template for a GET request whose path names
//! a registered template, and lets every other request through unchanged.
//!
//! The library decides; the server glue performs the decision. `resolve` turns a
//! request path into the template names to try, `select_template` picks the one
//! that is registered, and `TeraPageMiddleware::route` combines both with the
//! method filter.

pub mod engine;
pub mod matching;
pub mod middleware;
pub mod resolve;

pub use engine::{page_from_render, Page, STATUS_OK, STATUS_RENDER_FAILED};
pub use matching::{is_registered, select_template};
pub use middleware::{Action, TeraPage, TeraPageMiddleware};
pub use resolve::{normalize_prefix, resolve, trim_end_slashes_of};
