//! Request planning and reply shaping for a kitchen inventory service.
//!
//! The service keeps products, units, unit conversions, places, spaces and
//! stock items in one table each. This library holds everything about it
//! that is a pure function: the text of every SQL statement, the values bound
//! to it, and the reply owed for each outcome. Talking to the database and to
//! HTTP clients is left to the caller.

pub mod decimal;
pub mod entity;
pub mod record;
pub mod statement;
pub mod response;
pub mod route;
