//! A task list: records with an id, a text and a completion flag, the table
//! that holds them, and the requests that read and change it.

pub mod task;
pub mod table;
pub mod response;
pub mod service;
pub mod laws;
