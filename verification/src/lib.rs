//! Gesture logic for driving the window switcher with the extra mouse
//! buttons and the wheel.
//!
//! The crate holds the decisions only: which synthetic key events a mouse or
//! keyboard notification calls for, how the gesture flags change, and which
//! resources a start-up failure has to release. Installing hooks, injecting
//! input and running the message loop are left to the program around it.

pub mod gesture;
pub mod hooks;
pub mod keys;
pub mod shell;
pub mod startup;
pub mod traces;
