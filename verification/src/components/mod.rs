//! State shared by more than one screen.

pub mod quiz_state;
