pub mod fixed;
pub mod tools;
pub mod car;
pub mod laws;
