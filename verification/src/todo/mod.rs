pub mod handler;
pub mod model;
pub mod repo;
