//! Probing the search path for companion modules and classifying what is found.

pub mod available;
pub mod host;
pub mod laws;
pub mod names;
pub mod probe;
pub mod report;
pub mod text;
pub mod version;
