//! Records of a kanban board and notes, the database location and greeting
//! built from a directory, and the decisions taken while the application
//! starts up.

pub mod board;
pub mod location;
pub mod startup;
