pub mod text;
pub mod uuid_text;
pub mod models;
pub mod note_models;
pub mod clock;
pub mod reply;
pub mod routes;
pub mod controller;
pub mod token;
pub mod middleware;
pub mod controllers;
pub mod handler;
pub mod laws;
