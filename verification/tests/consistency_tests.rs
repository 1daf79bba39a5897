use scaffold::consistency::{all_frameworks, check_store_covers_matrix};
use scaffold::matrix::{BuildTool, Framework, Language, Platform};
use scaffold::pathkey::build_key;
use scaffold::resolve::ResolvedSelection;
use scaffold::store::{TemplateNode, TemplateStore};

fn all_legal_selections() -> Vec<ResolvedSelection> {
    let mut out = Vec::new();
    for f in all_frameworks() {
        let build_tools: Vec<Option<BuildTool>> = if f.needs_build_tool() {
            f.compatible_build_tools().into_iter().map(Some).collect()
        } else {
            vec![None]
        };
        for bt in build_tools {
            let languages = if f.needs_language() {
                vec![Language::TypeScript, Language::JavaScript]
            } else {
                vec![Language::TypeScript]
            };
            for language in languages {
                let platforms: Vec<Option<Platform>> = if f.needs_platform(&bt) {
                    f.compatible_platforms(&bt).into_iter().map(Some).collect()
                } else {
                    vec![None]
                };
                for platform in platforms {
                    out.push(ResolvedSelection {
                        framework: f,
                        build_tool: bt,
                        language,
                        platform,
                    });
                }
            }
        }
    }
    out
}

fn insert_path(children: &mut Vec<TemplateNode>, segs: &[String]) {
    if segs.is_empty() {
        return;
    }
    for child in children.iter_mut() {
        if let TemplateNode::Dir { name, children: sub } = child {
            if *name == segs[0] {
                insert_path(sub, &segs[1..]);
                return;
            }
        }
    }
    let mut sub = Vec::new();
    insert_path(&mut sub, &segs[1..]);
    children.push(TemplateNode::Dir { name: segs[0].clone(), children: sub });
}

fn store_with_keys(keys: &[Vec<String>]) -> TemplateStore {
    let mut children = Vec::new();
    for key in keys {
        insert_path(&mut children, key);
    }
    TemplateStore {
        root: TemplateNode::Dir { name: "templates".to_string(), children },
    }
}

#[test]
fn the_matrix_declares_sixty_six_legal_selections() {
    assert_eq!(all_legal_selections().len(), 66);
}

#[test]
fn a_store_with_every_legal_key_passes_the_checker() {
    let keys: Vec<Vec<String>> = all_legal_selections().iter().map(build_key).collect();
    let store = store_with_keys(&keys);
    assert!(check_store_covers_matrix(&store));
    for key in &keys {
        assert!(store.lookup(key).is_ok(), "missing template for key {:?}", key);
    }
}

#[test]
fn a_store_missing_one_legal_key_fails_the_checker() {
    let qwik_key = |sel: &ResolvedSelection| sel.framework == Framework::Qwik;
    let keys: Vec<Vec<String>> = all_legal_selections()
        .iter()
        .filter(|sel| !qwik_key(sel))
        .map(build_key)
        .collect();
    let store = store_with_keys(&keys);
    assert!(!check_store_covers_matrix(&store));
}

#[test]
fn an_empty_store_fails_the_checker() {
    let store = store_with_keys(&[]);
    assert!(!check_store_covers_matrix(&store));
}
