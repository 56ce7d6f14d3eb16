pub mod errors;
pub mod field_laws;
pub mod fields;
pub mod json;
pub mod mcp;
pub mod models;
pub mod rest;
pub mod service;
pub mod service_laws;
pub mod text;
