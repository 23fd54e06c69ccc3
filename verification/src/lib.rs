//! Client-side core of a scraping client for a legacy booking system:
//! query building, relay URL rewriting, HTML result parsing, timestamp
//! normalization and cursor-driven pagination.

pub mod cors;
pub mod datetime;
pub mod engine;
pub mod model;
pub mod parser;
pub mod query;
pub mod urls;

pub use cors::CorsProxy;
pub use engine::{Api, Listing};
pub use model::{Booking, BookingState, Credentials, Date, ListOptions, ParseError};
pub use parser::{ListResponse, Paging};
pub use urls::UrlParts;
