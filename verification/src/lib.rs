pub mod function;
pub mod laws;
pub mod library;
pub mod manager;
pub mod registrar;
pub mod sample;
pub mod value;
