pub mod errors;
pub mod text;

pub use errors::AppError;
