pub mod geometry;
pub mod culler;
pub mod grid;
pub mod indexer;
pub mod palette;
pub mod pipeline;
pub mod triangulate;
