pub mod adapter;
pub mod authority;
pub mod errors;
pub mod instructions;
pub mod laws;
pub mod reward;
pub mod schema;

