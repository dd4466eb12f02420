pub mod cli;
pub mod domain;
pub mod http;
pub mod paths;
pub mod subscribers;
pub mod tasks;
pub mod text;
