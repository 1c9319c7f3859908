pub mod error;
pub mod state;
