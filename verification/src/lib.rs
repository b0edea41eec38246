//! Search-parameter model for a PTM (post-translational modification)
//! protein-database client: the closed sets of query dimensions (item type,
//! PTM type, role), their canonical token and wire-name tables, and the
//! composite `SearchParameters` record with its wire serialization.

pub mod params;
pub mod text;
pub mod values;
pub mod wire;
