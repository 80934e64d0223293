//! A node-local persistence layer for a blockchain's block graph.
//!
//! Blocks are immutable, content-addressed records; each one names its
//! parent and carries a derived chain length.  The store keeps the block
//! payloads, an ancestry index with skip links for logarithmic ancestor
//! seeks, and a table of mutable named tags, all in a pooled SQLite
//! database behind a small trusted boundary.  Every algorithm on top of
//! that boundary — skip-link computation, ancestor seeks, ancestry
//! queries and range iteration — is verified against a mathematical
//! model of the stored index.

pub mod backend;
pub mod block;
pub mod chain;
pub mod gang;
pub mod gargamel;
pub mod committee;
pub mod index;
pub mod iter;
pub mod laws;
pub mod leadership;
pub mod store;
pub mod tally;
pub mod unique;

pub use crate::block::Block;
pub use crate::block::BlockDate;
pub use crate::block::BlockId;
pub use crate::block::ChainLength;
pub use crate::index::BackLink;
pub use crate::index::BlockInfo;
pub use crate::index::compute_fast_link;
pub use crate::iter::BlockIterator;
pub use crate::iter::iterate_range;
pub use crate::store::BlockStore;
pub use crate::store::Error;
pub use crate::store::for_path_to_nth_ancestor;
