pub mod client;
pub mod errors;
pub mod json;
pub mod prompt;
pub mod requests;
pub mod sequence;
pub mod service;
pub mod text;
