//! Scene-graph reconstruction for I3S scene layers: descriptor records,
//! node-page addressing, resource naming and the node arena.

pub mod bits;
pub mod building;
pub mod drawing;
pub mod error;
pub mod feature;
pub mod fields;
pub mod geometry;
pub mod layer;
pub mod material;
pub mod merge;
pub mod node;
pub mod paging;
pub mod source;
pub mod statistics;
pub mod tree;
