//! Currency rates, fetched once and queried many times.
//!
//! [`feed`] says which transfers from the rate feed yield a snapshot,
//! [`cache`] keeps the first snapshot for good, [`query`] answers the three
//! queries on it, and [`dispatch`] turns request parameters into queries and
//! answers with their status. [`record`] and [`snapshot`] hold the data.

pub mod cache;
pub mod dispatch;
pub mod feed;
pub mod query;
pub mod record;
pub mod scan;
pub mod snapshot;
