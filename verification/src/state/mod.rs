pub mod store;

pub use store::AppState;
