//! Verified decision logic for a thin binding over a native neural-network
//! inference engine: how caller inputs become native arguments, how native
//! return codes become structured results, and in which order the steps of a
//! buffer-mode load are taken.

pub mod error;
pub mod cpath;
pub mod tempname;
pub mod load;
pub mod laws;
