//! A version ledger for relational database schemas: it bootstraps its own
//! storage, decodes ledger rows, answers current-version and by-version
//! queries, and repairs duplicate version records without losing data.

pub mod cmd;
pub mod codec;
pub mod dates;
pub mod laws;
pub mod ledger;
pub mod memdb;
pub mod model;
pub mod report;
pub mod resolve;
pub mod rows;
pub mod seq_util;
pub mod status;
pub mod storage;
