pub mod cli;
pub mod error;
pub mod matrix;
pub mod tokens;
