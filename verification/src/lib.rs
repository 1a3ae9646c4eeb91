//! Core logic of a terminal todo manager: ordering of todo lists, inline
//! priority and URL extraction, natural-language due dates, the daily
//! briefing ranking and the state machine behind the interactive views.

pub mod models;
pub mod text;
pub mod order;
pub mod sync;
pub mod app;
pub mod cal;
pub mod due_date;
pub mod lifecycle;
pub mod briefing;
pub mod ui;
pub mod editing;
pub mod jira;
pub mod github;
pub mod schema;
pub mod search;
pub mod input;
pub mod rows;
