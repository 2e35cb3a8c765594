//! Registration of script search keys and publication of the furthest scanned
//! block ("tip") for each of them.

pub mod key;
pub mod tip;
pub mod table;
pub mod service;
