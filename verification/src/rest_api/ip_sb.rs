pub mod error;
pub mod ip;
