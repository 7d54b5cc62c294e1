//! Sans-I/O core of a dictionary application's native side.
//!
//! The crate decides how a compressed dictionary asset becomes a database file
//! in the application's data directory, and declares the schema steps of the
//! flashcard store. It touches no file itself: the host performs each request
//! that the materializer hands out and feeds the reply back.

pub mod candidate;
pub mod gzip;
pub mod materializer;
pub mod model;
pub mod outcome;
pub mod schema;
pub mod text;
pub mod trace;
