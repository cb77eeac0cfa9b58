pub mod address;
pub mod errors;
pub mod state;
pub mod rules;
pub mod instructions;
pub mod laws;
