use scaffold::matrix::{
    AngularVariant, BuildTool, DesktopRuntime, ElectronFarmPlatform, ElectronVitePlatform,
    Framework, FrameworkConfig, FrontendTool, NestPlatform, Platform, ProjectLayer, ReactVariant,
};

#[test]
fn build_tool_requirements_follow_the_table() {
    assert!(Framework::React.needs_build_tool());
    assert!(Framework::Vue.needs_build_tool());
    assert!(Framework::Lit.needs_build_tool());
    assert!(Framework::Tauri.needs_build_tool());
    assert!(Framework::Electron.needs_build_tool());
    assert!(!Framework::Qwik.needs_build_tool());
    assert!(!Framework::Angular.needs_build_tool());
    assert!(!Framework::Next.needs_build_tool());
    assert!(!Framework::Nest.needs_build_tool());
    assert!(!Framework::ReactNative.needs_build_tool());
}

#[test]
fn language_choice_follows_the_table() {
    assert!(Framework::React.needs_language());
    assert!(Framework::Qwik.needs_language());
    assert!(!Framework::Angular.needs_language());
    assert!(!Framework::Next.needs_language());
    assert!(!Framework::Nest.needs_language());
    assert!(!Framework::Tauri.needs_language());
    assert!(!Framework::Electron.needs_language());
}

#[test]
fn platform_requirements_follow_the_table() {
    assert!(Framework::React.needs_platform(&Some(BuildTool::Vite)));
    assert!(!Framework::React.needs_platform(&Some(BuildTool::Farm)));
    assert!(!Framework::React.needs_platform(&None));
    assert!(Framework::Angular.needs_platform(&None));
    assert!(Framework::Nest.needs_platform(&None));
    assert!(Framework::Tauri.needs_platform(&Some(BuildTool::Vite)));
    assert!(Framework::Electron.needs_platform(&Some(BuildTool::Farm)));
    assert!(!Framework::Qwik.needs_platform(&None));
    assert!(!Framework::Next.needs_platform(&None));
}

#[test]
fn compatible_build_tools_follow_the_table() {
    assert_eq!(
        Framework::React.compatible_build_tools(),
        vec![BuildTool::Vite, BuildTool::Farm, BuildTool::Rsbuild]
    );
    assert_eq!(Framework::Qwik.compatible_build_tools(), vec![BuildTool::Vite]);
    assert_eq!(
        Framework::Electron.compatible_build_tools(),
        vec![BuildTool::Vite, BuildTool::Farm]
    );
    assert_eq!(Framework::Angular.compatible_build_tools(), vec![]);
    assert_eq!(Framework::Nest.compatible_build_tools(), vec![]);
}

#[test]
fn compatible_platforms_follow_the_table() {
    assert_eq!(
        Framework::React.compatible_platforms(&Some(BuildTool::Vite)),
        vec![
            Platform::React(ReactVariant::Default),
            Platform::React(ReactVariant::Swc),
            Platform::React(ReactVariant::Compiler),
        ]
    );
    assert_eq!(Framework::React.compatible_platforms(&Some(BuildTool::Farm)), vec![]);
    assert_eq!(
        Framework::Angular.compatible_platforms(&None),
        vec![
            Platform::Angular(AngularVariant::Analog),
            Platform::Angular(AngularVariant::Angular),
        ]
    );
    assert_eq!(
        Framework::Nest.compatible_platforms(&None),
        vec![
            Platform::Nest(NestPlatform::Express),
            Platform::Nest(NestPlatform::Fastify),
        ]
    );
    assert_eq!(
        Framework::Electron.compatible_platforms(&Some(BuildTool::Vite)),
        vec![
            Platform::ElectronVite(ElectronVitePlatform::React),
            Platform::ElectronVite(ElectronVitePlatform::Vue),
        ]
    );
    assert_eq!(
        Framework::Electron.compatible_platforms(&Some(BuildTool::Farm)).len(),
        5
    );
    assert_eq!(
        Framework::Electron.compatible_platforms(&Some(BuildTool::Farm))[1],
        Platform::ElectronFarm(ElectronFarmPlatform::Preact)
    );
    assert_eq!(Framework::Tauri.compatible_platforms(&Some(BuildTool::Vite)).len(), 5);
}

#[test]
fn platform_availability_holds_for_every_legal_build_tool() {
    for f in scaffold::consistency::all_frameworks() {
        let build_tools: Vec<Option<BuildTool>> = if f.needs_build_tool() {
            f.compatible_build_tools().into_iter().map(Some).collect()
        } else {
            vec![None]
        };
        for bt in build_tools {
            if f.needs_platform(&bt) {
                assert!(
                    !f.compatible_platforms(&bt).is_empty(),
                    "platform required but none offered for {:?} with {:?}",
                    f,
                    bt
                );
            }
        }
    }
}

#[test]
fn trait_answers_match_the_central_table() {
    assert!(FrontendTool::React.needs_build_tool());
    assert!(!FrontendTool::Angular.needs_build_tool());
    assert!(FrontendTool::Qwik.needs_choose_language());
    assert!(!DesktopRuntime::Tauri.needs_choose_language());
    assert!(DesktopRuntime::Tauri.is_tauri());
    assert!(!DesktopRuntime::Electron.is_tauri());
    assert!(FrontendTool::Angular.needs_choose_paltform(&None));
    assert!(!FrontendTool::Vue.needs_choose_paltform(&Some(BuildTool::Vite)));
    assert_eq!(
        FrontendTool::Qwik.compatible_build_tools(),
        vec![BuildTool::Vite]
    );
    assert_eq!(FrontendTool::React.framework(), Framework::React);
    assert_eq!(DesktopRuntime::Electron.framework(), Framework::Electron);
}

#[test]
fn layers_follow_the_table() {
    assert_eq!(Framework::React.layer(), ProjectLayer::Frontend);
    assert_eq!(Framework::Next.layer(), ProjectLayer::Meta);
    assert_eq!(Framework::Nest.layer(), ProjectLayer::Backend);
    assert_eq!(Framework::Tauri.layer(), ProjectLayer::Desktop);
    assert_eq!(Framework::ReactNative.layer(), ProjectLayer::Mobile);
}

#[test]
fn tags_are_lowercase_and_stable() {
    assert_eq!(Framework::React.tag(), "react");
    assert_eq!(Framework::ReactNative.tag(), "reactnative");
    assert_eq!(Framework::ReactNative.display_name(), "React Native");
    assert_eq!(BuildTool::Rsbuild.tag(), "rsbuild");
    assert_eq!(scaffold::matrix::Language::TypeScript.tag(), "ts");
    assert_eq!(scaffold::matrix::Language::JavaScript.tag(), "js");
    assert_eq!(Platform::React(ReactVariant::Swc).tag(), "swc");
    assert_eq!(Platform::Angular(AngularVariant::Analog).tag(), "analog");
    assert_eq!(Platform::Nest(NestPlatform::Fastify).tag(), "fastify");
    assert_eq!(scaffold::matrix::PackageManager::PNPM.command_name(), "pnpm");
    assert_eq!(ProjectLayer::Desktop.display_name(), "Desktop");
}
