//! A terminal dashboard driven purely by elapsed time.
//!
//! The crate holds the model of the dashboard: how the screen is divided,
//! what each widget shows for a given elapsed time, and how the render loop
//! reacts to what happens around it. Drawing, input and system queries are
//! left to the program that embeds it.

pub mod app;
pub mod layout;
pub mod widgets;
