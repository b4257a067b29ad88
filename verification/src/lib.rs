pub mod key;
pub mod token;
pub mod error;
pub mod state;
pub mod processor;
pub mod laws;
pub mod acceptance;
