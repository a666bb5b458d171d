//! A radio group component: a row of choices of which one is selected.
//!
//! The selection logic, the properties builder and the event handling are
//! verified; drawing the widget on a terminal is left to the caller.

pub mod strings;
pub mod states;
pub mod style;
pub mod props;
pub mod radio;
pub mod laws;
