use scaffold::render::{render_str, RenderContext, RenderError};

fn ctx() -> RenderContext {
    RenderContext::new("My App", None)
}

#[test]
fn context_holds_the_derived_variables() {
    let c = ctx();
    assert_eq!(c.project_name, "My App");
    assert_eq!(c.project_name_kebab, "my-app");
    assert_eq!(c.project_name_snake, "my_app");
    assert_eq!(c.tauri_user_name, "tauri");
}

#[test]
fn caller_identity_overrides_the_default() {
    let c = RenderContext::new("app", Some("casey".to_string()));
    assert_eq!(c.tauri_user_name, "casey");
}

#[test]
fn plain_text_renders_unchanged() {
    assert_eq!(render_str("hello world", &ctx()), Ok("hello world".to_string()));
    assert_eq!(render_str("", &ctx()), Ok("".to_string()));
}

#[test]
fn placeholders_are_substituted() {
    assert_eq!(
        render_str("Welcome to {{ project_name }}!", &ctx()),
        Ok("Welcome to My App!".to_string())
    );
    assert_eq!(
        render_str("{{project_name_kebab}}/{{ project_name_snake }}", &ctx()),
        Ok("my-app/my_app".to_string())
    );
    assert_eq!(
        render_str("user: {{  tauri_user_name  }}", &ctx()),
        Ok("user: tauri".to_string())
    );
}

#[test]
fn a_single_brace_is_ordinary_text() {
    assert_eq!(
        render_str("{\"name\": \"x\"}", &ctx()),
        Ok("{\"name\": \"x\"}".to_string())
    );
}

#[test]
fn an_undefined_variable_aborts_rendering() {
    assert_eq!(
        render_str("hi {{ nope }}", &ctx()),
        Err(RenderError::UndefinedVariable { name: "nope".to_string() })
    );
}

#[test]
fn malformed_placeholders_abort_rendering() {
    assert_eq!(render_str("a {{ }} b", &ctx()), Err(RenderError::MalformedPlaceholder));
    assert_eq!(render_str("a {{ name", &ctx()), Err(RenderError::MalformedPlaceholder));
    assert_eq!(
        render_str("a {{ two words }}", &ctx()),
        Err(RenderError::MalformedPlaceholder)
    );
    assert_eq!(render_str("{{", &ctx()), Err(RenderError::MalformedPlaceholder));
}
