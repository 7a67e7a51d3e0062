pub mod errors;
pub mod metadata;
pub mod keys;
