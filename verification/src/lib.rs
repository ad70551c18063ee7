//! A virtual server: an engine that answers a fixed protocol about tables
//! and views with the help of a handler that holds the data, and a builder
//! of the SQL statements with which a handler can answer.
//!
//! The engine ([`server`]) never calls the handler. It says what to ask
//! ([`handler`]), takes the answer in, and says what to respond
//! ([`proto`]). The builder ([`generic_sql_model`]) turns the configuration
//! of a view ([`view_config`], [`filters`]) into text. The data of a page
//! travels as named columns ([`data`]).

pub mod column_locator;
pub mod data;
pub mod deep;
pub mod error;
pub mod features;
pub mod filters;
pub mod generic_sql_model;
pub mod handler;
pub mod number;
pub mod ordered_map;
pub mod proto;
pub mod server;
pub mod text;
pub mod view_config;
