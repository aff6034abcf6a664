//! A personal todo list: tasks with one of three priorities, kept as one
//! YAML document, shown grouped by priority.

pub mod app;
pub mod color;
pub mod commands;
pub mod location;
pub mod order;
pub mod priority;
pub mod render;
pub mod text;
pub mod todo;
pub mod yaml;

pub use color::Color;
