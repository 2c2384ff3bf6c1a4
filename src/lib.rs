//! A todo service's logic: the todo record, the validation of requests, the
//! answers each route gives, and an in-memory todo table with the meaning of
//! the service's three statements (insert, update of the status, select all).

pub mod id;
pub mod model;
pub mod store;
pub mod response;
pub mod handlers;
pub mod laws;
