//! The registry of features.

use vstd::prelude::*;
use crate::compose::{compose, ConfigBuilder, OptionGroup, Registry};
use crate::text::text_eq;

verus! {

/// Richer help buffers.
pub const HELPFUL: &'static str = r#"
;; Add extra context to Emacs documentation to help make it easier to
;; search and understand. This configuration uses the keybindings 
;; recommended by the package author.
(use-package helpful
  :ensure t
  :bind (("C-h f" . #'helpful-callable)
         ("C-h v" . #'helpful-variable)
         ("C-h k" . #'helpful-key)
         ("C-c C-d" . #'helpful-at-point)
         ("C-h F" . #'helpful-function)
         ("C-h C" . #'helpful-command)))
"#;

/// Modal editing in the manner of vim.
pub const VIM: &'static str = r#"
;; Adds vim emulation. Activate `evil-mode' to swap your default Emacs
;; keybindings with the modal editor of great infamy. There's a ton of
;; keybindings that Evil needs to modify, so this configuration also
;; includes `evil-collection' to fill in the gaps.
(use-package evil
  :ensure t
  :init
  (setq evil-want-integration t)
  (setq evil-want-keybinding nil)
  :config
  (evil-mode 1))

(use-package evil-collection
  :after evil
  :ensure t
  :config
  (evil-collection-init))
"#;

/// Linked notes.
pub const DENOTE: &'static str = r#"
;; `org-mode' is great but Denote makes it even better by adding
;; features that you'd find in something like Obsidian (like
;; backlinks!). You can write your notes in org, markdown, or plain
;; text, though I recommend giving `org-mode' a try if you've never
;; used it before. The Denote manual is also excellent:
;; https://protesilaos.com/emacs/denote
(use-package denote
  :ensure t
  :custom
  (denote-known-keywords '("emacs" "journal"))
  ;; This is the directory where your notes live.
  (denote-directory (expand-file-name "~/denote/"))
  :bind
  (("C-c n n" . denote)
   ("C-c n f" . denote-open-or-create)
   ("C-c n i" . denote-link)))
"#;

/// A git client.
pub const MAGIT: &'static str = r#"
;; An extremely feature-rich git client. Activate it with "C-c g".
(use-package magit
  :ensure t
  :bind (("C-c g" . magit-status)))
"#;

/// Breadcrumbs above each buffer.
pub const BREADCRUMBS: &'static str = r#"
;; In addition to installing packages from the configured package
;; registries, you can also install straight from version control
;; with the :vc keyword argument. For the full list of supported
;; fetchers, view the documentation for the variable
;; `vc-use-package-fetchers'.
;;
;; Breadcrumb adds, well, breadcrumbs to the top of your open buffers
;; and works great with project.el, the Emacs project manager.
;;
;; Read more about projects here:
;; https://www.gnu.org/software/emacs/manual/html_node/emacs/Projects.html
(use-package breadcrumb
  :vc (:fetcher github :repo joaotavora/breadcrumb)
  :init (breadcrumb-mode))
"#;

/// The fragment of each feature.
pub open spec fn feature_fragment(key: Seq<char>) -> Option<Seq<char>> {
    if key == "helpful"@ {
        Some(HELPFUL@)
    } else if key == "vim"@ {
        Some(VIM@)
    } else if key == "denote"@ {
        Some(DENOTE@)
    } else if key == "magit"@ {
        Some(MAGIT@)
    } else if key == "breadcrumbs"@ {
        Some(BREADCRUMBS@)
    } else {
        None
    }
}

/// The group of features.
pub struct Features {}

impl OptionGroup for Features {
    open spec fn registry() -> Registry {
        |key: Seq<char>| feature_fragment(key)
    }

    fn lookup(key: &str) -> (found: Option<&'static str>) {
        if text_eq(key, "helpful") {
            Some(HELPFUL)
        } else if text_eq(key, "vim") {
            Some(VIM)
        } else if text_eq(key, "denote") {
            Some(DENOTE)
        } else if text_eq(key, "magit") {
            Some(MAGIT)
        } else if text_eq(key, "breadcrumbs") {
            Some(BREADCRUMBS)
        } else {
            None
        }
    }

}

impl ConfigBuilder for Features {
    fn build_string(options: Option<Vec<String>>) -> (result: String) {
        match options {
            Some(keys) => compose::<Features>(&keys),
            None => String::new(),
        }
    }
}

} // verus!
