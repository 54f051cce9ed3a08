//! Translation of database-driver failures into exception objects built by a
//! host environment on the far side of a foreign-function boundary.

pub mod boundary;
pub mod constructors;
pub mod driver_error;
pub mod classify;
pub mod registry;
pub mod socket_options;
pub mod prepared_statement;
