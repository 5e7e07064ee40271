//! Pure domain types. This layer holds no transport or infrastructure concern.
pub mod auth;
pub mod config;
pub mod event;
pub mod file;
pub mod health;
pub mod ids;
pub mod office;
pub mod image;
pub mod plugin;
pub mod task;
pub mod update;
