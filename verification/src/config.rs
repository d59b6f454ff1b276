//! From what a caller asked for to the fields of the init file.

use vstd::prelude::*;
use crate::compose::{composed, selection_keys, ConfigBuilder, OptionGroup};
use crate::features::Features;
use crate::hooks::{eglot_block, synthesize_hooks};
use crate::languages::Languages;
use crate::text::text_eq;

verus! {

/// The theme that is asked for by name.
pub const LIGHT: &'static str = "light";

/// The symbol of the light theme.
pub const LIGHT_THEME: &'static str = "'ef-duo-light";

/// The symbol of the theme for every other name.
pub const DARK_THEME: &'static str = "'ef-autumn";

/// The font where none is named.
pub const DEFAULT_FONT: &'static str = "Monaco";

/// What a caller asks for: a theme and a font by name, and the selected
/// features and languages.
#[derive(Debug)]
pub struct EmacsConfig {
    pub theme: String,
    pub font_family: String,
    pub feature: Option<Vec<String>>,
    pub language: Option<Vec<String>>,
}

/// The fields of the init file.
#[derive(Debug)]
pub struct ConfigTemplate {
    pub theme: String,
    pub font_family: String,
    pub eglot: String,
    pub features: String,
    pub languages: String,
}

/// The symbol of the theme named `theme`: the light theme for `light`, the
/// dark one for every other name.
pub open spec fn theme_symbol(theme: Seq<char>) -> Seq<char> {
    if theme == LIGHT@ {
        LIGHT_THEME@
    } else {
        DARK_THEME@
    }
}

/// The font named `font`, or the default font where the name is empty.
pub open spec fn font_or_default(font: Seq<char>) -> Seq<char> {
    if font.len() == 0 {
        DEFAULT_FONT@
    } else {
        font
    }
}

impl EmacsConfig {
    /// The fields of the init file for this configuration.
    pub fn into_template(self) -> (template: ConfigTemplate)
        ensures
            template.theme@ == theme_symbol(self.theme@),
            template.font_family@ == font_or_default(self.font_family@),
            template.eglot@ == eglot_block(selection_keys(self.language)),
            template.features@ == composed(Features::registry(), selection_keys(self.feature)),
            template.languages@ == composed(Languages::registry(), selection_keys(self.language)),
    {
        let theme = if text_eq(self.theme.as_str(), LIGHT) {
            String::from_str(LIGHT_THEME)
        } else {
            String::from_str(DARK_THEME)
        };
        let eglot = match &self.language {
            Some(keys) => synthesize_hooks(keys),
            None => synthesize_hooks(&Vec::new()),
        };
        let font_family = if self.font_family.as_str().is_empty() {
            String::from_str(DEFAULT_FONT)
        } else {
            self.font_family
        };
        ConfigTemplate {
            theme,
            font_family,
            eglot,
            features: Features::build_string(self.feature),
            languages: Languages::build_string(self.language),
        }
    }
}

} // verus!
