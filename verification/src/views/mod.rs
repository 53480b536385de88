//! The state of the screens: what each screen holds, and how each message
//! from the user changes it. Drawing the screens is left to the program.

pub mod home;
pub mod learning;
pub mod practice;
pub mod settings;
