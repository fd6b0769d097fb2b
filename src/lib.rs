//! Keeps GTK stylesheets in step with the COSMIC desktop theme: the theme
//! model, stylesheet generation for both GTK dialects, the plans that write
//! and restore the stylesheets, and the change debouncer.

pub mod color;
pub mod theme;
pub mod settings;
pub mod css;
pub mod fsmodel;
pub mod restore;
pub mod distribute;
pub mod watch;
