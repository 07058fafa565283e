pub mod errors;
pub mod laws;
pub mod price;
pub mod product;
pub mod products_repository;

pub use errors::Error;
