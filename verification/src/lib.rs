//! Verified core of the shop sign-in server: the records that travel between the
//! database, the card reader and the browsers, the grammar of the requests that the
//! browsers send, the SQL and JSON texts that the server writes, and the decisions
//! that the request handler and the card-reader loop make.

pub mod text;
pub mod data_types;
pub mod json;
pub mod request;
pub mod queries;
pub mod reader;
pub mod handler;
pub mod shop_db;
