use scaffold::matrix::{
    AngularVariant, BackendTool, BuildTool, DesktopRuntime, ElectronFarmPlatform, Framework,
    FrontendTool, MetaFramework, MobileTool, NestPlatform, Platform, ProjectLayer, ReactVariant,
    TauriPlatform,
};
use scaffold::parse::{
    parse_backend_tool, parse_desktop_runtime, parse_framework, parse_frontend_tool,
    parse_meta_framework, parse_mobile_tool, parse_platform,
};

#[test]
fn frontend_names_parse_ignoring_case() {
    assert_eq!(parse_frontend_tool("react"), Ok(FrontendTool::React));
    assert_eq!(parse_frontend_tool("React"), Ok(FrontendTool::React));
    assert_eq!(parse_frontend_tool("SVELTE"), Ok(FrontendTool::Svelte));
    assert_eq!(parse_frontend_tool("angular"), Ok(FrontendTool::Angular));
    assert_eq!(
        parse_frontend_tool("ember"),
        Err("Unknown frontend framework: ember".to_string())
    );
}

#[test]
fn other_layer_names_parse() {
    assert_eq!(parse_backend_tool("Nest"), Ok(BackendTool::Nest));
    assert!(parse_backend_tool("rails").is_err());
    assert_eq!(parse_meta_framework("next"), Ok(MetaFramework::Next));
    assert_eq!(parse_meta_framework("NUXT"), Ok(MetaFramework::Nuxt));
    assert!(parse_meta_framework("gatsby").is_err());
    assert_eq!(parse_desktop_runtime("tauri"), Ok(DesktopRuntime::Tauri));
    assert_eq!(parse_desktop_runtime("Electron"), Ok(DesktopRuntime::Electron));
    assert!(parse_desktop_runtime("nwjs").is_err());
    assert_eq!(parse_mobile_tool("react-native"), Ok(MobileTool::ReactNative));
    assert_eq!(parse_mobile_tool("ReactNative"), Ok(MobileTool::ReactNative));
    assert!(parse_mobile_tool("flutter").is_err());
}

#[test]
fn framework_parsing_respects_the_layer() {
    assert_eq!(
        parse_framework(ProjectLayer::Frontend, "react"),
        Ok(Framework::React)
    );
    assert_eq!(parse_framework(ProjectLayer::Meta, "nuxt"), Ok(Framework::Nuxt));
    assert_eq!(parse_framework(ProjectLayer::Backend, "nest"), Ok(Framework::Nest));
    assert_eq!(
        parse_framework(ProjectLayer::Desktop, "electron"),
        Ok(Framework::Electron)
    );
    assert_eq!(
        parse_framework(ProjectLayer::Mobile, "react-native"),
        Ok(Framework::ReactNative)
    );
    assert!(parse_framework(ProjectLayer::Backend, "react").is_err());
    assert!(parse_framework(ProjectLayer::Frontend, "nest").is_err());
}

#[test]
fn react_platforms_parse_only_under_vite() {
    assert_eq!(
        parse_platform("swc", "react", &Some(BuildTool::Vite)),
        Ok(Platform::React(ReactVariant::Swc))
    );
    assert_eq!(
        parse_platform("Default", "React", &Some(BuildTool::Vite)),
        Ok(Platform::React(ReactVariant::Default))
    );
    assert!(parse_platform("swc", "react", &Some(BuildTool::Farm)).is_err());
    assert!(parse_platform("swc", "react", &None).is_err());
}

#[test]
fn angular_and_nest_platforms_parse_with_any_build_tool() {
    assert_eq!(
        parse_platform("analog", "angular", &None),
        Ok(Platform::Angular(AngularVariant::Analog))
    );
    assert_eq!(
        parse_platform("angular", "Angular", &Some(BuildTool::Farm)),
        Ok(Platform::Angular(AngularVariant::Angular))
    );
    assert_eq!(
        parse_platform("fastify", "nest", &None),
        Ok(Platform::Nest(NestPlatform::Fastify))
    );
}

#[test]
fn desktop_platforms_parse_per_build_tool() {
    assert_eq!(
        parse_platform("preact", "electron", &Some(BuildTool::Farm)),
        Ok(Platform::ElectronFarm(ElectronFarmPlatform::Preact))
    );
    assert!(parse_platform("preact", "electron", &Some(BuildTool::Vite)).is_err());
    assert_eq!(
        parse_platform("solid", "tauri", &Some(BuildTool::Vite)),
        Ok(Platform::Tauri(TauriPlatform::Solid))
    );
}

#[test]
fn unknown_platforms_are_rejected_naming_both_inputs() {
    assert_eq!(
        parse_platform("ionic", "react", &Some(BuildTool::Vite)),
        Err("Unknown platform 'ionic' for framework 'react'".to_string())
    );
    assert!(parse_platform("swc", "qwik", &None).is_err());
}

#[test]
fn unknown_framework_errors_name_the_rejected_input() {
    assert_eq!(
        parse_backend_tool("rails"),
        Err("Unknown backend framework: rails".to_string())
    );
    assert_eq!(
        parse_meta_framework("gatsby"),
        Err("Unknown meta framework: gatsby".to_string())
    );
    assert_eq!(
        parse_desktop_runtime("nwjs"),
        Err("Unknown desktop runtime: nwjs".to_string())
    );
    assert_eq!(
        parse_mobile_tool("flutter"),
        Err("Unknown mobile framework: flutter".to_string())
    );
    assert_eq!(
        parse_framework(ProjectLayer::Frontend, "rails"),
        Err("Unknown frontend framework: rails".to_string())
    );
}
