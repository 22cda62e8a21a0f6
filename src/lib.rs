pub mod api_client;
pub mod auth;
pub mod config;
pub mod laws;
pub mod routes;
pub mod schemas;
pub mod state;
