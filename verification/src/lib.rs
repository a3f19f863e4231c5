//! A gateway between one client process and several kinds of data store:
//! statement text, value marshalling, key-value commands, tunnel steps and the
//! registry of live connections, each with a contract.

pub mod answer;
pub mod catalog;
pub mod connect;
pub mod dialect;
pub mod error;
pub mod gateway;
pub mod json;
pub mod keyvalue;
pub mod raw;
pub mod registry;
pub mod row;
pub mod sql;
pub mod statement;
pub mod text;
pub mod tunnel;
pub mod value;
