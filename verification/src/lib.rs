//! A bridge between typed patient-record requests and the scripts that carry
//! them out.
//!
//! Every request is one round trip: a record is created, or the records are
//! listed or searched, by starting an interpreter on a script under the
//! working directory and reading what it prints.  Nothing is kept between
//! requests.
//!
//! - [`input`] holds the payload of a creation request and its JSON form;
//! - [`call`] says which process each request starts, if any;
//! - [`outcome`] says what reply is made of how that process ended;
//! - [`messages`] words the diagnostics;
//! - [`db`] puts these together into the three requests;
//! - [`laws`] states what holds of every request;
//! - [`text`] and [`trusted`] hold what the others stand on.

pub mod call;
pub mod db;
pub mod input;
pub mod laws;
pub mod messages;
pub mod outcome;
pub mod text;
pub mod trusted;

pub use crate::call::ScriptCall;
pub use crate::input::PazienteInput;
pub use crate::outcome::RunOutcome;
