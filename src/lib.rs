//! A todo list: records with an id, a description and a completion flag,
//! kept in ascending id order, with the rules for adding a record and for
//! marking one done.

pub mod dispatch;
pub mod error;
pub mod laws;
pub mod table;
pub mod todo;
