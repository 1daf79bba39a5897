use scaffold::matrix::{
    AngularVariant, BuildTool, Framework, Language, NestPlatform, Platform, ReactVariant,
};
use scaffold::resolve::{
    next_missing_field, validate, MissingField, ResolutionError, Selection,
};

fn selection(
    framework: Framework,
    build_tool: Option<BuildTool>,
    language: Option<Language>,
    platform: Option<Platform>,
) -> Selection {
    Selection { framework, build_tool, language, platform }
}

#[test]
fn full_react_selection_resolves() {
    let s = selection(
        Framework::React,
        Some(BuildTool::Vite),
        Some(Language::TypeScript),
        Some(Platform::React(ReactVariant::Swc)),
    );
    let r = validate(&s).unwrap();
    assert_eq!(r.framework, Framework::React);
    assert_eq!(r.build_tool, Some(BuildTool::Vite));
    assert_eq!(r.language, Language::TypeScript);
    assert_eq!(r.platform, Some(Platform::React(ReactVariant::Swc)));
}

#[test]
fn language_defaults_to_typescript_where_it_is_no_choice() {
    let s = selection(Framework::Nest, None, None, Some(Platform::Nest(NestPlatform::Express)));
    let r = validate(&s).unwrap();
    assert_eq!(r.language, Language::TypeScript);
}

#[test]
fn incompatible_build_tool_is_reported() {
    let s = selection(Framework::Angular, Some(BuildTool::Vite), None, None);
    assert_eq!(
        validate(&s),
        Err(ResolutionError::IncompatibleBuildTool {
            framework: Framework::Angular,
            build_tool: BuildTool::Vite,
        })
    );
}

#[test]
fn language_override_is_rejected_where_the_default_is_forced() {
    let s = selection(
        Framework::Angular,
        None,
        Some(Language::JavaScript),
        Some(Platform::Angular(AngularVariant::Analog)),
    );
    assert_eq!(
        validate(&s),
        Err(ResolutionError::LanguageOverrideRejected {
            framework: Framework::Angular,
            language: Language::JavaScript,
        })
    );
}

#[test]
fn explicit_typescript_is_accepted_where_the_default_is_forced() {
    let s = selection(
        Framework::Angular,
        None,
        Some(Language::TypeScript),
        Some(Platform::Angular(AngularVariant::Angular)),
    );
    assert!(validate(&s).is_ok());
}

#[test]
fn incompatible_platform_is_reported() {
    let s = selection(
        Framework::React,
        Some(BuildTool::Vite),
        Some(Language::TypeScript),
        Some(Platform::Nest(NestPlatform::Express)),
    );
    assert_eq!(
        validate(&s),
        Err(ResolutionError::IncompatiblePlatform {
            framework: Framework::React,
            build_tool: Some(BuildTool::Vite),
            platform: Platform::Nest(NestPlatform::Express),
        })
    );
}

#[test]
fn platform_where_none_is_needed_is_rejected() {
    let s = selection(
        Framework::React,
        Some(BuildTool::Farm),
        Some(Language::TypeScript),
        Some(Platform::React(ReactVariant::Swc)),
    );
    assert!(matches!(
        validate(&s),
        Err(ResolutionError::IncompatiblePlatform { .. })
    ));
}

#[test]
fn redundant_compatible_build_tool_is_dropped_for_qwik() {
    let s = selection(Framework::Qwik, Some(BuildTool::Vite), Some(Language::TypeScript), None);
    let r = validate(&s).unwrap();
    assert_eq!(r.build_tool, None);
}

#[test]
fn missing_fields_are_asked_in_the_fixed_order() {
    let s0 = selection(Framework::React, None, None, None);
    match next_missing_field(&s0) {
        Some(MissingField::BuildTool(domain)) => {
            assert_eq!(domain, vec![BuildTool::Vite, BuildTool::Farm, BuildTool::Rsbuild]);
        }
        other => panic!("expected a build tool to be asked, got {:?}", other),
    }

    let s1 = selection(Framework::React, Some(BuildTool::Vite), None, None);
    match next_missing_field(&s1) {
        Some(MissingField::Language(domain)) => {
            assert_eq!(domain, vec![Language::TypeScript, Language::JavaScript]);
        }
        other => panic!("expected a language to be asked, got {:?}", other),
    }

    let s2 = selection(Framework::React, Some(BuildTool::Vite), Some(Language::TypeScript), None);
    match next_missing_field(&s2) {
        Some(MissingField::Platform(domain)) => {
            assert_eq!(domain.len(), 3);
            assert_eq!(domain[1], Platform::React(ReactVariant::Swc));
        }
        other => panic!("expected a platform to be asked, got {:?}", other),
    }

    let s3 = selection(
        Framework::React,
        Some(BuildTool::Vite),
        Some(Language::TypeScript),
        Some(Platform::React(ReactVariant::Default)),
    );
    assert_eq!(next_missing_field(&s3), None);
}

#[test]
fn nothing_is_asked_where_the_matrix_requires_nothing() {
    let s = selection(Framework::Next, None, None, None);
    assert_eq!(next_missing_field(&s), None);
    let r = validate(&s).unwrap();
    assert_eq!(r.build_tool, None);
    assert_eq!(r.language, Language::TypeScript);
    assert_eq!(r.platform, None);
}

#[test]
fn error_messages_name_the_failed_rule() {
    let e = ResolutionError::NoPlatformsAvailable { framework: Framework::Angular, build_tool: None };
    assert_eq!(e.message(), "the matrix offers no platform although one is required");
    let e2 = ResolutionError::UnknownFramework;
    assert_eq!(e2.message(), "unknown framework");
}
