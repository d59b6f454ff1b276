//! Composition of an Emacs init file from selected options.
//!
//! A caller selects features and languages by key. Each key names a fixed
//! fragment of configuration text; the fragments of the selected keys are
//! joined in the order of selection, and the language selection also shapes
//! the block that sets up the LSP client.

pub mod compose;
pub mod config;
pub mod features;
pub mod hooks;
pub mod languages;
pub mod laws;
pub mod reply;
pub mod text;

pub use crate::compose::{compose, ConfigBuilder, OptionGroup};
pub use crate::config::{ConfigTemplate, EmacsConfig};
pub use crate::features::Features;
pub use crate::hooks::{eglot, synthesize_hooks};
pub use crate::languages::Languages;
pub use crate::reply::{QueryRejection, Reply};
