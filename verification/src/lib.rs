//! Small verified building blocks: integer powers over several exponent
//! types, a saturating 16-bit integer, a ticket record, and a ticket store
//! served to clients over channels.

pub mod client;
pub mod data;
pub mod heap;
pub mod power;
pub mod saturating;
pub mod store;
