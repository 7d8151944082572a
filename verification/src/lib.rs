pub mod api;
pub mod config;
pub mod db_client;
pub mod error;
pub mod routes;
pub mod text;
pub mod user;
