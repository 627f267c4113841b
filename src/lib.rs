//! A directory lister: the pure core of entry ordering, attribute formatting,
//! icon classification and column layout, with its contracts.
pub mod cli;
pub mod layout;
pub mod structs;
pub mod utils;
