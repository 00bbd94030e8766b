//! The integer layout decisions of the terminal dashboard.

pub mod layout;
