pub mod aggregate;
pub mod coin;
pub mod config;
pub mod models;
pub mod state;
