pub mod laws;
pub mod os;
pub mod resolver;
