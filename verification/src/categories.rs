//! The categories table: its rows, the statements that change it, the
//! protocol of each operation, and an in-memory store that runs them.

pub mod model;
pub mod statement;
pub mod table;
pub mod matching;
pub mod store;
pub mod protocol;
pub mod run;
pub mod script;
pub mod insert;
pub mod update;
pub mod delete;
pub mod find;
pub mod laws;
pub mod sql;
pub mod mock;
pub mod remark;
