//! Server-side logic of a small to-do web application: error reporting,
//! session tokens, sign-in and sign-up decisions, and the task list.

pub mod auth;
pub mod error;
pub mod json;
pub mod tasks;
pub mod text;
pub mod token;
pub mod ui;
