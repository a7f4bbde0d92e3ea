//! Market-data ingestion: numeric and timestamp parsing of wire fields,
//! normalization of exchange messages into canonical records, the order-book
//! reconciler, the series writer's key and label scheme, and the decisions of
//! the streaming session.

pub mod numeric;
pub mod record;
pub mod timestamp;
pub mod series;
pub mod reconcile;
pub mod writer;
pub mod normalize;
pub mod feed;
pub mod session;
