//! The hook synthesizer: the eglot block that goes with a selection of
//! languages.

use vstd::prelude::*;
use crate::compose::{fragments, select, selects, OptionGroup, Registry};
use crate::text::{join, joined, text_eq};

verus! {

/// How the eglot block begins, up to the end of its key bindings.
pub const EGLOT_OPEN: &'static str = r#"
;; Adds LSP support. Note that you must have the respective LSP
;; server installed on your machine to use it with Eglot. e.g.
;; rust-analyzer to use Eglot with `rust-mode'.
(use-package eglot
  :ensure t
  :bind (("s-<mouse-1>" . eglot-find-implementation)
         ("C-c ." . eglot-code-action-quickfix))"#;

/// How the eglot block ends.
pub const EGLOT_CLOSE: &'static str = ")\n";

/// How the hook clause begins, up to the first hook.
pub const HOOK_CLAUSE_OPEN: &'static str = r#"
  ;; Add your programming modes here to automatically start Eglot,
  ;; assuming you have the respective LSP server installed.
  :hook ("#;

/// What stands between two hooks of the clause.
pub const HOOK_SEPARATOR: &'static str = "\n         ";

/// How the hook clause ends.
pub const HOOK_CLAUSE_CLOSE: &'static str = ")";

/// The stanza that tells eglot which server to run in `web-mode`.
pub const WEB_MODE_SERVER: &'static str = r#"
  :config
  ;; You can configure additional LSP servers by modifying
  ;; `eglot-server-programs'. The following tells eglot to use TypeScript
  ;; language server when working in `web-mode'.
  (add-to-list 'eglot-server-programs
               '(web-mode . ("typescript-language-server" "--stdio")))"#;

/// The hook that starts eglot in `go-mode`.
pub const GO_HOOK: &'static str = "(go-mode . eglot-ensure)";

/// The hook that starts eglot in `web-mode`.
pub const WEB_HOOK: &'static str = "(web-mode . eglot-ensure)";

/// The hook that starts eglot in `rust-mode`.
pub const RUST_HOOK: &'static str = "(rust-mode . eglot-ensure)";

/// The hook of each language that eglot is started for.
pub open spec fn hook(key: Seq<char>) -> Option<Seq<char>> {
    if key == "go"@ {
        Some(GO_HOOK@)
    } else if key == "tsx"@ {
        Some(WEB_HOOK@)
    } else if key == "rust"@ {
        Some(RUST_HOOK@)
    } else {
        None
    }
}

/// The languages that eglot is started for, each with its hook.
pub struct Hooks {}

impl OptionGroup for Hooks {
    open spec fn registry() -> Registry {
        |key: Seq<char>| hook(key)
    }

    fn lookup(key: &str) -> (found: Option<&'static str>) {
        if text_eq(key, "go") {
            Some(GO_HOOK)
        } else if text_eq(key, "tsx") {
            Some(WEB_HOOK)
        } else if text_eq(key, "rust") {
            Some(RUST_HOOK)
        } else {
            None
        }
    }
}

/// The hooks of the selected languages, in the order of selection.
pub open spec fn hooks(selection: Seq<Seq<char>>) -> Seq<Seq<char>> {
    fragments(Hooks::registry(), selection)
}

/// The hook clause: absent where no selected language has a hook, else the
/// hooks, one to a line.
pub open spec fn hook_clause(selection: Seq<Seq<char>>) -> Seq<char> {
    if hooks(selection).len() > 0 {
        HOOK_CLAUSE_OPEN@ + joined(hooks(selection), HOOK_SEPARATOR@) + HOOK_CLAUSE_CLOSE@
    } else {
        Seq::empty()
    }
}

/// The server stanza: present where `tsx` is selected, at whatever place.
pub open spec fn server_stanza(selection: Seq<Seq<char>>) -> Seq<char> {
    if selection.contains("tsx"@) {
        WEB_MODE_SERVER@
    } else {
        Seq::empty()
    }
}

/// The eglot block: its opening, the hook clause, the server stanza and its
/// closing, in this order.
pub open spec fn eglot_block(selection: Seq<Seq<char>>) -> Seq<char> {
    EGLOT_OPEN@ + hook_clause(selection) + server_stanza(selection) + EGLOT_CLOSE@
}

/// The eglot block for a selection of languages.
pub fn synthesize_hooks(selection: &Vec<String>) -> (block: String)
    ensures
        block@ == eglot_block(selection.deep_view()),
{
    let found = select::<Hooks>(selection);
    let mut block = String::from_str(EGLOT_OPEN);
    if found.len() > 0 {
        let lines = join(&found, HOOK_SEPARATOR);
        block.append(HOOK_CLAUSE_OPEN);
        block.append(lines.as_str());
        block.append(HOOK_CLAUSE_CLOSE);
    }
    assert(block@ =~= EGLOT_OPEN@ + hook_clause(selection.deep_view()));
    if selects(selection, "tsx") {
        block.append(WEB_MODE_SERVER);
    }
    block.append(EGLOT_CLOSE);
    assert(block@ =~= eglot_block(selection.deep_view()));
    block
}

/// The eglot block for the selected languages.
pub fn eglot(languages: Vec<String>) -> (block: String)
    ensures
        block@ == eglot_block(languages.deep_view()),
{
    synthesize_hooks(&languages)
}

} // verus!
