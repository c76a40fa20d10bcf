//! Labels for non-negative integers by divisibility, and an in-memory store
//! that keeps one label per number.
//!
//! * [`classifier`] holds the labelling rule.
//! * [`models`] holds the entry and the store as data.
//! * [`store`] holds the three operations on a store: list, get and create.
//! * [`routes`] turns the outcome of each operation into a status code and a
//!   body, ready to be sent by whatever serves the requests.

pub mod classifier;
pub mod models;
pub mod routes;
pub mod store;

pub use classifier::check_number;
pub use models::{Number, Numbers};
pub use store::StoreError;
