//! Verified core of a small inventory service that keeps items in one table
//! of a relational store and serves them over HTTP.
//!
//! - `models`: an item and the payload that creates or replaces one.
//! - `ident`: item identifiers, minted at random or read from a path.
//! - `statement`: the statements sent to the store, with their bound values.
//! - `response`: HTTP responses as a status code and a body.
//! - `handlers`: for each of the five operations, the statement it sends and
//!   the response it makes of the store's answer.
//! - `table`: the table as the service expects it to behave, kept in memory.
//! - `service`: a request from its arrival to the response.
//! - `laws`: what holds of requests served one after another.
//! - `config`: the connection string with which the store is reached.
//!
//! A caller with a real store asks `service::plan` for the statement, runs it
//! and hands the answer to the handler of that statement; `service::serve`
//! does the same against a `table::ItemTable`.

pub mod config;
pub mod handlers;
pub mod ident;
pub mod laws;
pub mod models;
pub mod response;
pub mod service;
pub mod statement;
pub mod table;
