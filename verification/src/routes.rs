//! The logic behind the API's routes.
pub mod admin;
pub mod predict;
