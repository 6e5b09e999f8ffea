//! Local-first task planner storage: a forward-only schema migration engine and
//! the entity stores (tasks, day blocks, settings) over an embedded SQLite
//! database.

pub mod catalog;
pub mod clock;
pub mod commands;
pub mod db;
pub mod error;
pub mod json;
pub mod ledger;
pub mod llm;
pub mod migrations;
pub mod models;
pub mod plan;
pub mod rows;
pub mod sql;
