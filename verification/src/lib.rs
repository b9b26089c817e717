//! A small todo service core: the data model, request-level logic and
//! store semantics of a CRUD resource, with contracts checked by Verus.
//!
//! The HTTP server, the cross-origin policy and the database connection
//! pool live outside this library; they feed plain values (rows, path
//! segments, request bodies) into the functions here and carry the
//! results back onto the wire.

pub mod error;
pub mod parse;
pub mod present;
pub mod routing;
pub mod store;
pub mod todo;

pub use error::Error;
pub use error::StorageError;
pub use todo::NewTodo;
pub use todo::Todo;
pub use todo::UpdateTodo;
