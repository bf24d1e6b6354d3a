pub mod handler;
pub mod models;
pub mod schema;
pub mod text;
