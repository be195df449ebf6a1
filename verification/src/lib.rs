pub mod access;
pub mod admin;
pub mod auth;
pub mod billing;
pub mod catalog;
pub mod credentials;
pub mod decimal;
pub mod json;
pub mod plans;
pub mod query;
pub mod status;
pub mod text;
pub mod webhook;
