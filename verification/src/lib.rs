//! Verified core of a small user-directory service: the record type, the
//! parameterised SQL statements, the request handlers as a step function, and
//! a reference model of the users table against which the handlers are proved.

pub mod error;
pub mod gateway;
pub mod guarantees;
pub mod handlers;
pub mod response;
pub mod service;
pub mod startup;
pub mod statement;
pub mod table;
pub mod user;
