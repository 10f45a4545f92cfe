pub mod text;
pub mod error;
pub mod model;
pub mod dto;
pub mod repo;
pub mod cache;
pub mod upload;
pub mod service;
pub mod settings;
pub mod validate;
pub mod laws;
