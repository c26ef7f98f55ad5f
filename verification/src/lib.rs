pub mod cli;
pub mod config;
pub mod detect;
pub mod dockerfile;
pub mod dockerfile_lines;
pub mod error;
pub mod json;
pub mod overrides;
pub mod plan;
pub mod project;
pub mod providers;
pub mod sanitize;
pub mod structured;
pub mod text;

pub use error::Error;
