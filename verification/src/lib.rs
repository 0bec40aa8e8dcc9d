//! The errors that clients of the search engine are told of.
//!
//! Whatever fails inside the server, a client hears of it in one form: an HTTP
//! status, and a body that names a code of the catalog, the code's class and
//! the place where the code is documented. This crate holds that catalog,
//! says which code stands for which failure, and builds the response.

pub mod error;
