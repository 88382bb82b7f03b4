//! Request decisions of an organisation portal: which answer a request gets
//! from the outcome of each check it goes through, how uploaded files are
//! named and where they are stored, and how role records are read back.

pub mod reply;
pub mod gate;
pub mod store;
pub mod sections;
pub mod members;
pub mod projects;
pub mod upload;
pub mod models;
