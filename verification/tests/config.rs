use emacs_config_generator::features::{HELPFUL, VIM};
use emacs_config_generator::languages::{GO, TSX};
use emacs_config_generator::reply::{render_failure, BAD_REQUEST, INTERNAL_SERVER_ERROR};
use emacs_config_generator::{eglot, EmacsConfig, QueryRejection};

fn config(theme: &str, font_family: &str) -> EmacsConfig {
    EmacsConfig {
        theme: String::from(theme),
        font_family: String::from(font_family),
        feature: None,
        language: None,
    }
}

#[test]
fn light_theme_is_chosen_by_its_name_only() {
    assert_eq!(config("light", "").into_template().theme, "'ef-duo-light");
    assert_eq!(config("dark", "").into_template().theme, "'ef-autumn");
    assert_eq!(config("", "").into_template().theme, "'ef-autumn");
    assert_eq!(config("Light", "").into_template().theme, "'ef-autumn");
    assert_eq!(config("light ", "").into_template().theme, "'ef-autumn");
}

#[test]
fn font_falls_back_where_none_is_named() {
    assert_eq!(config("light", "").into_template().font_family, "Monaco");
    assert_eq!(config("light", "Fira Code").into_template().font_family, "Fira Code");
    assert_eq!(config("light", " ").into_template().font_family, " ");
}

#[test]
fn template_of_no_selection() {
    let template = config("dark", "Iosevka").into_template();
    assert_eq!(template.features, "");
    assert_eq!(template.languages, "");
    assert_eq!(template.eglot, eglot(vec![]));
}

#[test]
fn template_holds_the_composed_texts() {
    let template = EmacsConfig {
        theme: String::from("light"),
        font_family: String::new(),
        feature: Some(vec![String::from("vim"), String::from("emacs"), String::from("helpful")]),
        language: Some(vec![String::from("tsx"), String::from("go")]),
    }
    .into_template();
    assert_eq!(template.theme, "'ef-duo-light");
    assert_eq!(template.font_family, "Monaco");
    assert_eq!(template.features, format!("{}{}", VIM, HELPFUL));
    assert_eq!(template.languages, format!("{}{}", TSX, GO));
    assert_eq!(template.eglot, eglot(vec![String::from("tsx"), String::from("go")]));
    assert!(template.eglot.contains("(web-mode . eglot-ensure)\n         (go-mode . eglot-ensure)"));
    assert!(template.eglot.contains("typescript-language-server"));
}

#[test]
fn features_do_not_shape_the_eglot_block() {
    let template = EmacsConfig {
        theme: String::new(),
        font_family: String::new(),
        feature: Some(vec![String::from("tsx"), String::from("rust")]),
        language: None,
    }
    .into_template();
    assert_eq!(template.eglot, eglot(vec![]));
    assert_eq!(template.features, "");
}

#[test]
fn refused_query_is_a_bad_request_with_the_reason() {
    let reply = QueryRejection(String::from("missing field `theme`")).into_reply();
    assert_eq!(reply.status, 400);
    assert_eq!(reply.status, BAD_REQUEST);
    assert_eq!(reply.body, "Failed to deserialize query string: missing field `theme`");
    assert_eq!(QueryRejection(String::new()).into_reply().body, "Failed to deserialize query string: ");
}

#[test]
fn render_failure_is_a_server_error_with_the_reason() {
    let reply = render_failure("template not found");
    assert_eq!(reply.status, 500);
    assert_eq!(reply.status, INTERNAL_SERVER_ERROR);
    assert_eq!(reply.body, "Failed to render template. Error: template not found");
    assert_eq!(render_failure("").body, "Failed to render template. Error: ");
}
