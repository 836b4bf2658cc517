pub mod collection;
pub mod database;
pub mod document;
pub mod error;
pub mod execution;
pub mod last_error;
pub mod laws;
pub mod limits;
pub mod listing;
pub mod lookup;
pub mod native;
pub mod open_mode;
pub mod opening;
pub mod operation;
pub mod options;
pub mod query;
pub mod results;
pub mod storage;
pub mod text;
pub mod transaction;
pub mod wire;
