//! Core of a terminal expense tracker: the records it shows, the text form
//! that creates them, and the controller that turns key presses into state
//! changes and store requests.

pub mod app_input;
pub mod app_state;
pub mod expense;
pub mod handler;
pub mod submission;
