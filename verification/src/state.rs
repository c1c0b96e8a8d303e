pub mod admin;
pub mod errors;
pub mod amm;
pub mod token_params;
