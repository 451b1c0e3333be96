pub mod address;
pub mod laws;
pub mod model;
pub mod network;
pub mod schema;
pub mod stack;
pub mod stack6;
pub mod token;
pub mod token_laws;
pub mod types;
pub mod verify;
