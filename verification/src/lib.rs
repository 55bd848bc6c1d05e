//! Verified core of a tool that finds sensitive file content in a copied
//! directory tree by size, partial BLAKE3 hash and full BLAKE3 hash.

pub mod clock;
pub mod convert;
pub mod error;
pub mod hashing;
pub mod index;
pub mod indexing;
pub mod paths;
pub mod pipeline;
pub mod run;
pub mod scan;
pub mod settings;
pub mod text;
