//! speechdis: the logic of a web application that lists, describes and
//! uploads speech-to-text models held in RedisAI, and prepares recorded
//! speech for them.
pub mod admin;
pub mod error;
pub mod frontend;
pub mod health;
pub mod processing;
pub mod routes;
pub mod shared;
pub mod store;
pub mod uploader;
