//! What the operations of the library are for, stated over what goes into a call and what comes
//! out of it.
//!
//! Each law holds of every call: its premise is that a result came out of a function, and its
//! conclusion speaks of the arguments and the fields of the result alone. Texts are judged by
//! what a reader makes of them, with [`crate::json_read`].

pub mod intents;
pub mod listing;
pub mod queries;
pub mod rhea;
pub mod rounds;
pub mod sending;
