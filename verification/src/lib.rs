pub mod auth_service;
pub mod clock;
pub mod config_service;
pub mod domain;
pub mod error;
pub mod event_bus;
pub mod file_local;
pub mod file_service;
pub mod health_service;
pub mod image_service;
pub mod ipc_dto;
pub mod ipc_error;
pub mod ipc_request;
pub mod office_engine;
pub mod office_service;
pub mod path;
pub mod plugin_error;
pub mod plugin_port;
pub mod plugin_service;
pub mod plugin_store;
pub mod plugin_validation;
pub mod task_id;
pub mod task_service;
pub mod text;
pub mod update_service;
