//! Terminal display-width strategies and the escape-sequence layer that draws
//! boxes around text to show where a width definition goes wrong.
pub mod decimal;
pub mod term;
pub mod report;
pub mod unicode;
pub mod widths;
pub mod wcwidths;
pub mod draw;
pub mod boxes;
