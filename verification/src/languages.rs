//! The registry of languages.

use vstd::prelude::*;
use crate::compose::{compose, ConfigBuilder, OptionGroup, Registry};
use crate::text::text_eq;

verus! {

/// Elixir.
pub const ELIXIR: &'static str = r#"
(use-package elixir-mode
  :ensure t)
"#;

/// Go.
pub const GO: &'static str = r#"
(use-package go-mode
  :ensure t
  :bind (:map go-mode-map
	      ("C-c C-f" . 'gofmt))
  :hook (before-save . gofmt-before-save))
"#;

/// Lua.
pub const LUA: &'static str = r#"
(use-package lua-mode
  :ensure t)
"#;

/// Julia.
pub const JULIA: &'static str = r#"
(use-package julia-mode
  :ensure t)
"#;

/// Markdown.
pub const MARKDOWN: &'static str = r#"
(use-package markdown-mode
  :ensure t
  ;; These extra modes help clean up the Markdown editing experience.
  ;; `visual-line-mode' turns on word wrap and helps editing commands
  ;; work with paragraphs of text. `flyspell-mode' turns on an
  ;; automatic spell checker.
  :hook ((markdown-mode . visual-line-mode)
         (markdown-mode . flyspell-mode))
  :init
  (setq markdown-command "multimarkdown"))
"#;

/// PHP.
pub const PHP: &'static str = r#"
;; Note that `php-mode' assumes php code is separate from HTML.
;; If you prefer working with PHP and HTML in a single file you
;; may prefer `web-mode'.
(use-package php-mode
  :ensure t)
"#;

/// TypeScript and JavaScript, with JSX and TSX.
pub const TSX: &'static str = r#"
;; TypeScript, JS, and JSX/TSX support.
(use-package web-mode
  :ensure t
  :mode (("\\.ts\\'" . web-mode)
         ("\\.js\\'" . web-mode)
         ("\\.mjs\\'" . web-mode)
         ("\\.tsx\\'" . web-mode)
         ("\\.jsx\\'" . web-mode))
  :custom
  (web-mode-content-types-alist '(("jsx" . "\\.js[x]?\\'")))
  (web-mode-code-indent-offset 2)
  (web-mode-css-indent-offset 2)
  (web-mode-markup-indent-offset 2)
  (web-mode-enable-auto-quoting nil))
"#;

/// Rust.
pub const RUST: &'static str = r#"
(use-package rust-mode
  :ensure t
  :bind (:map rust-mode-map
	      ("C-c C-r" . 'rust-run)
	      ("C-c C-c" . 'rust-compile)
	      ("C-c C-f" . 'rust-format-buffer)
	      ("C-c C-t" . 'rust-test))
  :hook (rust-mode . prettify-symbols-mode))
"#;

/// YAML.
pub const YAML: &'static str = r#"
(use-package yaml-mode
  :ensure t)
"#;

/// The fragment of each language.
pub open spec fn language_fragment(key: Seq<char>) -> Option<Seq<char>> {
    if key == "elixir"@ {
        Some(ELIXIR@)
    } else if key == "go"@ {
        Some(GO@)
    } else if key == "julia"@ {
        Some(JULIA@)
    } else if key == "lua"@ {
        Some(LUA@)
    } else if key == "markdown"@ {
        Some(MARKDOWN@)
    } else if key == "php"@ {
        Some(PHP@)
    } else if key == "tsx"@ {
        Some(TSX@)
    } else if key == "rust"@ {
        Some(RUST@)
    } else if key == "yaml"@ {
        Some(YAML@)
    } else {
        None
    }
}

/// The group of languages.
pub struct Languages {}

impl OptionGroup for Languages {
    open spec fn registry() -> Registry {
        |key: Seq<char>| language_fragment(key)
    }

    fn lookup(key: &str) -> (found: Option<&'static str>) {
        if text_eq(key, "elixir") {
            Some(ELIXIR)
        } else if text_eq(key, "go") {
            Some(GO)
        } else if text_eq(key, "julia") {
            Some(JULIA)
        } else if text_eq(key, "lua") {
            Some(LUA)
        } else if text_eq(key, "markdown") {
            Some(MARKDOWN)
        } else if text_eq(key, "php") {
            Some(PHP)
        } else if text_eq(key, "tsx") {
            Some(TSX)
        } else if text_eq(key, "rust") {
            Some(RUST)
        } else if text_eq(key, "yaml") {
            Some(YAML)
        } else {
            None
        }
    }
}

impl ConfigBuilder for Languages {
    fn build_string(options: Option<Vec<String>>) -> (result: String) {
        match options {
            Some(keys) => compose::<Languages>(&keys),
            None => String::new(),
        }
    }
}

} // verus!
