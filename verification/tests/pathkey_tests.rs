use scaffold::matrix::{
    AngularVariant, BuildTool, Framework, Language, Platform, ReactVariant, TauriPlatform,
};
use scaffold::pathkey::{build_key, generate_path};
use scaffold::resolve::{validate, ResolvedSelection, Selection};

#[test]
fn react_swc_selection_yields_the_documented_key() {
    let s = Selection {
        framework: Framework::React,
        build_tool: Some(BuildTool::Vite),
        language: Some(Language::TypeScript),
        platform: Some(Platform::React(ReactVariant::Swc)),
    };
    let r = validate(&s).unwrap();
    assert_eq!(build_key(&r), vec!["ts", "vite", "react", "swc"]);
}

#[test]
fn qwik_key_carries_the_implicit_vite_segment() {
    let s = Selection {
        framework: Framework::Qwik,
        build_tool: None,
        language: Some(Language::TypeScript),
        platform: None,
    };
    let r = validate(&s).unwrap();
    assert_eq!(build_key(&r), vec!["ts", "vite", "qwik"]);
}

#[test]
fn angular_key_omits_any_build_tool_segment() {
    let s = Selection {
        framework: Framework::Angular,
        build_tool: None,
        language: None,
        platform: Some(Platform::Angular(AngularVariant::Analog)),
    };
    let r = validate(&s).unwrap();
    let key = build_key(&r);
    assert_eq!(key, vec!["angular", "analog"]);
    for seg in &key {
        assert_ne!(seg, "vite");
        assert_ne!(seg, "farm");
        assert_ne!(seg, "rsbuild");
    }
}

#[test]
fn forced_language_contributes_no_segment() {
    let r = ResolvedSelection {
        framework: Framework::Tauri,
        build_tool: Some(BuildTool::Farm),
        language: Language::TypeScript,
        platform: Some(Platform::Tauri(TauriPlatform::Svelte)),
    };
    assert_eq!(build_key(&r), vec!["farm", "tauri", "svelte"]);
}

#[test]
fn keys_join_into_slash_separated_paths() {
    assert_eq!(
        generate_path(
            &Some(Language::JavaScript),
            &Some(BuildTool::Rsbuild),
            &Framework::Preact,
            &None,
        ),
        "js/rsbuild/preact"
    );
    assert_eq!(generate_path(&None, &None, &Framework::Next, &None), "next");
    assert_eq!(
        generate_path(
            &Some(Language::TypeScript),
            &None,
            &Framework::Qwik,
            &None,
        ),
        "ts/vite/qwik"
    );
}

#[test]
fn equal_selections_yield_the_identical_key() {
    let r = ResolvedSelection {
        framework: Framework::Vue,
        build_tool: Some(BuildTool::Farm),
        language: Language::JavaScript,
        platform: None,
    };
    assert_eq!(build_key(&r), build_key(&r.clone()));
    assert_eq!(build_key(&r), vec!["js", "farm", "vue"]);
}
