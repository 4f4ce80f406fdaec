//! Engine of a desktop art viewer: fetching artworks from several museum
//! collections, keeping a small queue of them ready, and stepping through
//! what has been shown.

pub mod aic;
pub mod artwork;
pub mod cache;
pub mod candidate;
pub mod cma;
pub mod error;
pub mod http;
pub mod image;
pub mod lineup;
pub mod met;
pub mod nga;
pub mod orchestrator;
mod random;
pub mod text;

pub use artwork::Artwork;
pub use error::{FetchError, NavError};
