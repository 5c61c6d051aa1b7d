pub mod manager;
pub mod types;

pub use manager::ConfigManager;
pub use types::Config;
