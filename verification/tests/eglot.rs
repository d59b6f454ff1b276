use emacs_config_generator::hooks::{
    eglot, synthesize_hooks, Hooks, EGLOT_CLOSE, EGLOT_OPEN, GO_HOOK, HOOK_CLAUSE_CLOSE,
    HOOK_CLAUSE_OPEN, HOOK_SEPARATOR, RUST_HOOK, WEB_HOOK, WEB_MODE_SERVER,
};
use emacs_config_generator::OptionGroup;

fn keys(names: &[&str]) -> Vec<String> {
    names.iter().map(|name| String::from(*name)).collect()
}

#[test]
fn test_eglot() {
    assert_eq!(
        eglot(vec![]),
        r#"
;; Adds LSP support. Note that you must have the respective LSP
;; server installed on your machine to use it with Eglot. e.g.
;; rust-analyzer to use Eglot with `rust-mode'.
(use-package eglot
  :ensure t
  :bind (("s-<mouse-1>" . eglot-find-implementation)
         ("C-c ." . eglot-code-action-quickfix)))
"#,
    );

    assert_eq!(
        eglot(vec![String::from("go"), String::from("rust")]),
        r#"
;; Adds LSP support. Note that you must have the respective LSP
;; server installed on your machine to use it with Eglot. e.g.
;; rust-analyzer to use Eglot with `rust-mode'.
(use-package eglot
  :ensure t
  :bind (("s-<mouse-1>" . eglot-find-implementation)
         ("C-c ." . eglot-code-action-quickfix))
  ;; Add your programming modes here to automatically start Eglot,
  ;; assuming you have the respective LSP server installed.
  :hook ((go-mode . eglot-ensure)
         (rust-mode . eglot-ensure)))
"#,
    );

    assert_eq!(
        eglot(vec![String::from("tsx")]),
        r#"
;; Adds LSP support. Note that you must have the respective LSP
;; server installed on your machine to use it with Eglot. e.g.
;; rust-analyzer to use Eglot with `rust-mode'.
(use-package eglot
  :ensure t
  :bind (("s-<mouse-1>" . eglot-find-implementation)
         ("C-c ." . eglot-code-action-quickfix))
  ;; Add your programming modes here to automatically start Eglot,
  ;; assuming you have the respective LSP server installed.
  :hook ((web-mode . eglot-ensure))
  :config
  ;; You can configure additional LSP servers by modifying
  ;; `eglot-server-programs'. The following tells eglot to use TypeScript
  ;; language server when working in `web-mode'.
  (add-to-list 'eglot-server-programs
               '(web-mode . ("typescript-language-server" "--stdio"))))
"#,
    );
}

#[test]
fn eglot_of_empty_selection_is_opening_and_closing() {
    assert_eq!(eglot(vec![]), format!("{}{}", EGLOT_OPEN, EGLOT_CLOSE));
    assert_eq!(synthesize_hooks(&vec![]), format!("{}{}", EGLOT_OPEN, EGLOT_CLOSE));
}

#[test]
fn eglot_of_language_without_hook_has_no_clause_and_no_stanza() {
    assert_eq!(
        eglot(keys(&["lua"])),
        r#"
;; Adds LSP support. Note that you must have the respective LSP
;; server installed on your machine to use it with Eglot. e.g.
;; rust-analyzer to use Eglot with `rust-mode'.
(use-package eglot
  :ensure t
  :bind (("s-<mouse-1>" . eglot-find-implementation)
         ("C-c ." . eglot-code-action-quickfix)))
"#,
    );
    assert_eq!(eglot(keys(&["lua", "yaml", "php"])), eglot(vec![]));
    assert_eq!(eglot(keys(&["no-such-language"])), eglot(vec![]));
}

#[test]
fn eglot_keeps_hooks_in_order_of_selection() {
    let block = eglot(keys(&["rust", "lua", "go"]));
    assert_eq!(
        block,
        format!(
            "{}{}{}{}{}{}{}",
            EGLOT_OPEN,
            HOOK_CLAUSE_OPEN,
            RUST_HOOK,
            HOOK_SEPARATOR,
            GO_HOOK,
            HOOK_CLAUSE_CLOSE,
            EGLOT_CLOSE
        ),
    );
    let rust_at = block.find("(rust-mode . eglot-ensure)").unwrap();
    let go_at = block.find("(go-mode . eglot-ensure)").unwrap();
    assert!(rust_at < go_at);
    assert!(!block.contains(":config"));
}

#[test]
fn eglot_of_all_hooked_languages() {
    assert_eq!(
        eglot(keys(&["go", "tsx", "rust"])),
        r#"
;; Adds LSP support. Note that you must have the respective LSP
;; server installed on your machine to use it with Eglot. e.g.
;; rust-analyzer to use Eglot with `rust-mode'.
(use-package eglot
  :ensure t
  :bind (("s-<mouse-1>" . eglot-find-implementation)
         ("C-c ." . eglot-code-action-quickfix))
  ;; Add your programming modes here to automatically start Eglot,
  ;; assuming you have the respective LSP server installed.
  :hook ((go-mode . eglot-ensure)
         (web-mode . eglot-ensure)
         (rust-mode . eglot-ensure))
  :config
  ;; You can configure additional LSP servers by modifying
  ;; `eglot-server-programs'. The following tells eglot to use TypeScript
  ;; language server when working in `web-mode'.
  (add-to-list 'eglot-server-programs
               '(web-mode . ("typescript-language-server" "--stdio"))))
"#,
    );
}

#[test]
fn server_stanza_follows_hook_clause_wherever_tsx_stands() {
    let first = eglot(keys(&["tsx", "go"]));
    let last = eglot(keys(&["go", "yaml", "tsx"]));
    for block in [&first, &last] {
        let clause_at = block.find(":hook (").unwrap();
        let stanza_at = block.find(":config").unwrap();
        assert!(clause_at < stanza_at);
        assert!(block.starts_with(EGLOT_OPEN));
        assert!(block.ends_with(&format!("{}{}", WEB_MODE_SERVER, EGLOT_CLOSE)));
    }
    assert_eq!(
        first,
        format!(
            "{}{}{}{}{}{}{}{}",
            EGLOT_OPEN,
            HOOK_CLAUSE_OPEN,
            WEB_HOOK,
            HOOK_SEPARATOR,
            GO_HOOK,
            HOOK_CLAUSE_CLOSE,
            WEB_MODE_SERVER,
            EGLOT_CLOSE
        ),
    );
}

#[test]
fn a_language_selected_twice_has_its_hook_twice() {
    assert_eq!(
        eglot(keys(&["go", "go"])),
        format!(
            "{}{}{}{}{}{}{}",
            EGLOT_OPEN,
            HOOK_CLAUSE_OPEN,
            GO_HOOK,
            HOOK_SEPARATOR,
            GO_HOOK,
            HOOK_CLAUSE_CLOSE,
            EGLOT_CLOSE
        ),
    );
}

#[test]
fn eglot_gives_the_same_block_for_the_same_selection() {
    let selection = keys(&["tsx", "elixir", "rust"]);
    assert_eq!(eglot(selection.clone()), eglot(selection.clone()));
    assert_eq!(eglot(selection.clone()), synthesize_hooks(&selection));
}

#[test]
fn hooks_are_looked_up_by_exact_key() {
    assert_eq!(Hooks::lookup("go"), Some("(go-mode . eglot-ensure)"));
    assert_eq!(Hooks::lookup("tsx"), Some("(web-mode . eglot-ensure)"));
    assert_eq!(Hooks::lookup("rust"), Some("(rust-mode . eglot-ensure)"));
    assert_eq!(Hooks::lookup("lua"), None);
    assert_eq!(Hooks::lookup("Go"), None);
    assert_eq!(Hooks::lookup("go "), None);
    assert_eq!(Hooks::lookup(""), None);
    assert_eq!(eglot(keys(&["Rust", " tsx"])), eglot(vec![]));
}
