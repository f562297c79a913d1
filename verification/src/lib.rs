//! Layout decisions for writing Slippi replay frames and items as Parquet.

pub mod columns;
pub mod frames;
pub mod layers;
pub mod message;
pub mod schema;
pub mod versions;
