pub mod config;
pub mod power;
pub mod profiles;
pub mod settings;
