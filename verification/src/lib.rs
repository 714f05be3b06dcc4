pub mod codec;
pub mod factory;
pub mod models;
pub mod projector;
pub mod store;
