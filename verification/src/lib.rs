pub mod callback;
pub mod error;
pub mod payload;
pub mod services;
