//! A small themed "Hello, world!" desktop demo, with its decisions verified:
//! which of the two embedded stylesheets to install for a given desktop theme
//! setting, what one stylesheet-load pass must do, and what the interface
//! looks like after activation.

pub mod css;
pub mod settings;
pub mod theme;
pub mod ui;
