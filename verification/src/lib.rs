//! Verified core of plandb, a task-graph tool for agents, and of the small
//! character-level GPT beside it: the tokenizer, the model's parameter
//! layout, tensor index arithmetic, the task and project vocabularies, and
//! the decisions and text rendering of the command line.

pub mod artifact;
pub mod cli;
pub mod db_path;
pub mod layout;
pub mod model;
pub mod models;
pub mod project;
pub mod scope;
pub mod split;
pub mod table;
pub mod text;
pub mod tokenizer;
