//! Formatting of a text for printing: backslash escapes are interpreted,
//! plain spaces are stripped and the result is wrapped in quotes, each as
//! the options ask and always in that order.

pub mod enums;
pub mod formatter;
pub mod options;
pub mod text;
