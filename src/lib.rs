pub mod celsius;
pub mod generator;

pub use celsius::Celsius;
pub use generator::FahrToCelc;
