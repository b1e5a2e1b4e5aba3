//! Turns a declarative pipeline definition (named commands, jobs and
//! executors with typed parameters and steps) into the source of a server
//! project that exposes each entity as an addressable resource.

pub mod text;
pub mod error;
pub mod naming;
pub mod yaml;
pub mod schema;
pub mod fields;
pub mod records;
pub mod steps;
pub mod definition;
pub mod parser;
pub mod json;
pub mod context;
pub mod templates;
pub mod generator;
pub mod paths;
pub mod cli;
