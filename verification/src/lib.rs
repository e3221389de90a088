//! Content digests for the files of a directory tree: the choice between hashing a file
//! whole and hashing it in chunks, the streaming hashers, the order-preserving collection of
//! results, and the manifest and statistics built from them.

pub mod algo;
pub mod backends;
pub mod castagnoli;
pub mod file;
pub mod hex;
pub mod outcome;
pub mod pipeline;
pub mod report;
pub mod stream;
