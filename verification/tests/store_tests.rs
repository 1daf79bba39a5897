use scaffold::store::{has_marker, output_name, LookupError, TemplateNode, TemplateStore};

fn file(name: &str, bytes: &[u8]) -> TemplateNode {
    TemplateNode::file(name.to_string(), bytes.to_vec())
}

fn dir(name: &str, children: Vec<TemplateNode>) -> TemplateNode {
    TemplateNode::Dir { name: name.to_string(), children }
}

fn sample_store() -> TemplateStore {
    TemplateStore {
        root: dir(
            "templates",
            vec![
                dir(
                    "ts",
                    vec![dir(
                        "vite",
                        vec![dir("react", vec![dir("swc", vec![file("main.ts", b"x")])])],
                    )],
                ),
                dir("angular", vec![dir("analog", vec![])]),
                file("readme.txt", b"hello"),
            ],
        ),
    }
}

fn key(segs: &[&str]) -> Vec<String> {
    segs.iter().map(|s| s.to_string()).collect()
}

#[test]
fn lookup_descends_to_the_addressed_directory() {
    let store = sample_store();
    let node = store.lookup(&key(&["ts", "vite", "react", "swc"])).unwrap();
    match node {
        TemplateNode::Dir { name, children } => {
            assert_eq!(name, "swc");
            assert_eq!(children.len(), 1);
        }
        other => panic!("expected a directory, got {:?}", other),
    }
    assert!(store.lookup(&key(&["angular", "analog"])).is_ok());
    assert!(store.lookup(&key(&[])).is_ok());
}

#[test]
fn lookup_misses_are_reported_with_the_key() {
    let store = sample_store();
    match store.lookup(&key(&["ts", "vite", "vue"])) {
        Err(LookupError::TemplateNotFound { key: k }) => {
            assert_eq!(k, vec!["ts", "vite", "vue"]);
        }
        other => panic!("expected a miss, got {:?}", other),
    }
}

#[test]
fn lookup_never_lands_on_a_file() {
    let store = sample_store();
    assert!(store.lookup(&key(&["readme.txt"])).is_err());
    assert!(store.lookup(&key(&["ts", "vite", "react", "swc", "main.ts"])).is_err());
}

#[test]
fn the_marker_extension_is_recognised_and_stripped() {
    assert!(has_marker("package.json.tera"));
    assert!(has_marker(".tera"));
    assert!(!has_marker("package.json"));
    assert!(!has_marker("tera"));
    assert!(!has_marker("a.terb"));
    assert_eq!(output_name("package.json.tera"), "package.json");
    assert_eq!(output_name("main.rs"), "main.rs");
}

#[test]
fn file_nodes_derive_their_parametrized_flag_from_the_name() {
    match file("conf.toml.tera", b"x") {
        TemplateNode::File { parametrized, .. } => assert!(parametrized),
        other => panic!("expected a file, got {:?}", other),
    }
    match file("conf.toml", b"x") {
        TemplateNode::File { parametrized, .. } => assert!(!parametrized),
        other => panic!("expected a file, got {:?}", other),
    }
}
