//! Reporting core of a command-line client for a hosted source-control
//! platform: pipeline windows, status colours, job tables and job logs.

pub mod commands;
pub mod errors;
pub mod gitlab_login;
pub mod http;
pub mod json;
pub mod output;
pub mod pipelines;
pub mod projects;
pub mod records;
pub mod session;
pub mod style;
pub mod table;
pub mod text;
pub mod variables;
pub mod window;
