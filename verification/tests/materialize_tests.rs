use scaffold::materialize::{materialize, Action, MaterializeError};
use scaffold::render::{RenderContext, RenderError};
use scaffold::store::TemplateNode;

fn node_file(name: &str, bytes: &[u8]) -> TemplateNode {
    TemplateNode::file(name.to_string(), bytes.to_vec())
}

fn node_dir(name: &str, children: Vec<TemplateNode>) -> TemplateNode {
    TemplateNode::Dir { name: name.to_string(), children }
}

fn context() -> RenderContext {
    RenderContext::new("My App", None)
}

#[test]
fn the_plan_walks_the_tree_in_pre_order() {
    let template = node_dir(
        "react",
        vec![
            node_file("README.md", b"# Hi"),
            node_file("package.json.tera", b"{\"name\": \"{{ project_name_kebab }}\"}"),
            node_dir("src", vec![node_file("main.bin", &[0u8, 159, 146, 150])]),
        ],
    );
    let plan = materialize(&template, "My App", &context()).unwrap();
    assert_eq!(
        plan,
        vec![
            Action::MkDir { path: "My App".to_string() },
            Action::WriteRaw {
                path: "My App/README.md".to_string(),
                contents: b"# Hi".to_vec(),
            },
            Action::WriteRendered {
                path: "My App/package.json".to_string(),
                contents: "{\"name\": \"my-app\"}".to_string(),
            },
            Action::MkDir { path: "My App/src".to_string() },
            Action::WriteRaw {
                path: "My App/src/main.bin".to_string(),
                contents: vec![0u8, 159, 146, 150],
            },
        ]
    );
}

#[test]
fn non_parametrized_files_are_copied_byte_for_byte() {
    let payload: Vec<u8> = (0u8..=255).collect();
    let template = node_dir("t", vec![node_file("blob.bin", &payload)]);
    let plan = materialize(&template, "out", &context()).unwrap();
    match &plan[1] {
        Action::WriteRaw { path, contents } => {
            assert_eq!(path, "out/blob.bin");
            assert_eq!(contents, &payload);
        }
        other => panic!("expected a raw write, got {:?}", other),
    }
}

#[test]
fn an_undefined_variable_aborts_the_whole_run() {
    let template = node_dir(
        "t",
        vec![
            node_file("ok.txt", b"fine"),
            node_dir("inner", vec![node_file("bad.txt.tera", b"x {{ nope }}")]),
        ],
    );
    assert_eq!(
        materialize(&template, "dest", &context()),
        Err(MaterializeError::Render {
            path: "dest/inner/bad.txt".to_string(),
            error: RenderError::UndefinedVariable { name: "nope".to_string() },
        })
    );
}

#[test]
fn a_malformed_placeholder_aborts_the_whole_run() {
    let template = node_dir("t", vec![node_file("broken.cfg.tera", b"oops {{ }}")]);
    assert_eq!(
        materialize(&template, "dest", &context()),
        Err(MaterializeError::Render {
            path: "dest/broken.cfg".to_string(),
            error: RenderError::MalformedPlaceholder,
        })
    );
}

#[test]
fn a_parametrized_file_must_be_utf8() {
    let template = node_dir("t", vec![node_file("b.tera", &[0xffu8, 0xfe])]);
    assert_eq!(
        materialize(&template, "dest", &context()),
        Err(MaterializeError::Render {
            path: "dest/b".to_string(),
            error: RenderError::InvalidUtf8,
        })
    );
}

#[test]
fn raw_files_may_hold_invalid_utf8() {
    let template = node_dir("t", vec![node_file("b.bin", &[0xffu8, 0xfe])]);
    let plan = materialize(&template, "dest", &context()).unwrap();
    assert_eq!(
        plan[1],
        Action::WriteRaw { path: "dest/b.bin".to_string(), contents: vec![0xffu8, 0xfe] }
    );
}

#[test]
fn the_template_root_name_does_not_appear_in_output_paths() {
    let template = node_dir("swc", vec![node_file("index.html", b"<html>")]);
    let plan = materialize(&template, "proj", &context()).unwrap();
    assert_eq!(plan[0], Action::MkDir { path: "proj".to_string() });
    assert_eq!(
        plan[1],
        Action::WriteRaw { path: "proj/index.html".to_string(), contents: b"<html>".to_vec() }
    );
}
