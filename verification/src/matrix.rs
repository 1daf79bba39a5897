//! The compatibility matrix: one framework-indexed table that decides
//! which dimensions a framework requires and which values are legal.
//!
//! Every rule lives in the spec functions on [`Framework`]; the
//! executable methods and the [`FrameworkConfig`] trait impls all answer
//! from that single table, so the rules cannot drift apart.

use vstd::prelude::*;

use crate::text::{eq_lower, spec_lower};

verus! {

/// Top-level application category.
#[derive(Debug, Clone, Copy, PartialEq, Eq, Structural)]
pub enum ProjectLayer {
    Frontend,
    Meta,
    Backend,
    Desktop,
    Mobile,
}

/// Frontend frameworks.
#[derive(Debug, Clone, Copy, PartialEq, Eq, Structural)]
pub enum FrontendTool {
    React,
    Preact,
    Vue,
    Svelte,
    Solid,
    Lit,
    Qwik,
    Angular,
}

/// Backend frameworks.
#[derive(Debug, Clone, Copy, PartialEq, Eq, Structural)]
pub enum BackendTool {
    Nest,
}

/// Meta frameworks (full-stack frameworks with their own tooling).
#[derive(Debug, Clone, Copy, PartialEq, Eq, Structural)]
pub enum MetaFramework {
    Next,
    Nuxt,
}

/// Desktop application runtimes.
#[derive(Debug, Clone, Copy, PartialEq, Eq, Structural)]
pub enum DesktopRuntime {
    Tauri,
    Electron,
}

/// Mobile frameworks.
#[derive(Debug, Clone, Copy, PartialEq, Eq, Structural)]
pub enum MobileTool {
    ReactNative,
}

/// React compiler variants.
#[derive(Debug, Clone, Copy, PartialEq, Eq, Structural)]
pub enum ReactVariant {
    Default,
    Swc,
    Compiler,
}

/// Angular flavour: plain Angular or the Analog meta-framework.
#[derive(Debug, Clone, Copy, PartialEq, Eq, Structural)]
pub enum AngularVariant {
    Angular,
    Analog,
}

/// Build tools Electron templates are organised under.
#[derive(Debug, Clone, Copy, PartialEq, Eq, Structural)]
pub enum ElectronRuntime {
    Vite,
    Farm,
}

/// UI frameworks available for Electron together with Vite.
#[derive(Debug, Clone, Copy, PartialEq, Eq, Structural)]
pub enum ElectronVitePlatform {
    React,
    Vue,
}

/// UI frameworks available for Electron together with Farm.
#[derive(Debug, Clone, Copy, PartialEq, Eq, Structural)]
pub enum ElectronFarmPlatform {
    React,
    Preact,
    Vue,
    Svelte,
    Solid,
}

/// UI frameworks available for Tauri.
#[derive(Debug, Clone, Copy, PartialEq, Eq, Structural)]
pub enum TauriPlatform {
    React,
    Preact,
    Vue,
    Svelte,
    Solid,
}

/// Server adapters available for Nest.
#[derive(Debug, Clone, Copy, PartialEq, Eq, Structural)]
pub enum NestPlatform {
    Express,
    Fastify,
}

/// A framework-specific sub-option, namespaced per framework.
#[derive(Debug, Clone, Copy, PartialEq, Eq, Structural)]
pub enum Platform {
    React(ReactVariant),
    Angular(AngularVariant),
    ElectronVite(ElectronVitePlatform),
    ElectronFarm(ElectronFarmPlatform),
    Tauri(TauriPlatform),
    Nest(NestPlatform),
}

/// Implementation language of the generated project.
#[derive(Debug, Clone, Copy, PartialEq, Eq, Structural)]
pub enum Language {
    TypeScript,
    JavaScript,
}

/// Bundler / dev-server chosen for frameworks that need one.
#[derive(Debug, Clone, Copy, PartialEq, Eq, Structural)]
pub enum BuildTool {
    Vite,
    Farm,
    Rsbuild,
}

/// Package manager used for the install step after materialization.
#[derive(Debug, Clone, Copy, PartialEq, Eq, Structural)]
pub enum PackageManager {
    NPM,
    Yarn,
    PNPM,
    Bun,
}

/// Every concrete framework the tool can scaffold, across all layers.
/// This is the index of the compatibility table.
#[derive(Debug, Clone, Copy, PartialEq, Eq, Structural)]
pub enum Framework {
    React,
    Preact,
    Vue,
    Svelte,
    Solid,
    Lit,
    Qwik,
    Angular,
    Next,
    Nuxt,
    Nest,
    Tauri,
    Electron,
    ReactNative,
}

impl Framework {
    /// The layer a framework belongs to.
    pub open spec fn spec_layer(self) -> ProjectLayer {
        match self {
            Framework::React
            | Framework::Preact
            | Framework::Vue
            | Framework::Svelte
            | Framework::Solid
            | Framework::Lit
            | Framework::Qwik
            | Framework::Angular => ProjectLayer::Frontend,
            Framework::Next | Framework::Nuxt => ProjectLayer::Meta,
            Framework::Nest => ProjectLayer::Backend,
            Framework::Tauri | Framework::Electron => ProjectLayer::Desktop,
            Framework::ReactNative => ProjectLayer::Mobile,
        }
    }

    /// Whether the user must pick a build tool for this framework.
    pub open spec fn spec_needs_build_tool(self) -> bool {
        match self {
            Framework::React
            | Framework::Preact
            | Framework::Vue
            | Framework::Svelte
            | Framework::Solid
            | Framework::Lit
            | Framework::Tauri
            | Framework::Electron => true,
            _ => false,
        }
    }

    /// Whether the implementation language is a real choice point; when
    /// it is not, the language is forced to `Language::TypeScript`.
    pub open spec fn spec_needs_language(self) -> bool {
        match self {
            Framework::React
            | Framework::Preact
            | Framework::Vue
            | Framework::Svelte
            | Framework::Solid
            | Framework::Lit
            | Framework::Qwik => true,
            _ => false,
        }
    }

    /// Whether a platform choice is required, given the chosen build tool.
    pub open spec fn spec_needs_platform(self, build_tool: Option<BuildTool>) -> bool {
        match self {
            Framework::React => build_tool == Some(BuildTool::Vite),
            Framework::Angular => true,
            Framework::Nest => true,
            Framework::Tauri => true,
            Framework::Electron => true,
            _ => false,
        }
    }

    /// The ordered set of build tools this framework supports.
    pub open spec fn spec_compatible_build_tools(self) -> Seq<BuildTool> {
        match self {
            Framework::React
            | Framework::Preact
            | Framework::Vue
            | Framework::Svelte
            | Framework::Solid
            | Framework::Lit => seq![BuildTool::Vite, BuildTool::Farm, BuildTool::Rsbuild],
            Framework::Qwik => seq![BuildTool::Vite],
            Framework::Tauri | Framework::Electron => seq![BuildTool::Vite, BuildTool::Farm],
            _ => Seq::empty(),
        }
    }

    /// The ordered set of platforms legal for this framework together
    /// with the given build tool.
    pub open spec fn spec_compatible_platforms(self, build_tool: Option<BuildTool>) -> Seq<
        Platform,
    > {
        match self {
            Framework::React => if build_tool == Some(BuildTool::Vite) {
                seq![
                    Platform::React(ReactVariant::Default),
                    Platform::React(ReactVariant::Swc),
                    Platform::React(ReactVariant::Compiler),
                ]
            } else {
                Seq::empty()
            },
            Framework::Angular => seq![
                Platform::Angular(AngularVariant::Analog),
                Platform::Angular(AngularVariant::Angular),
            ],
            Framework::Nest => seq![
                Platform::Nest(NestPlatform::Express),
                Platform::Nest(NestPlatform::Fastify),
            ],
            Framework::Tauri => seq![
                Platform::Tauri(TauriPlatform::Preact),
                Platform::Tauri(TauriPlatform::React),
                Platform::Tauri(TauriPlatform::Vue),
                Platform::Tauri(TauriPlatform::Svelte),
                Platform::Tauri(TauriPlatform::Solid),
            ],
            Framework::Electron => if build_tool == Some(BuildTool::Vite) {
                seq![
                    Platform::ElectronVite(ElectronVitePlatform::React),
                    Platform::ElectronVite(ElectronVitePlatform::Vue),
                ]
            } else if build_tool == Some(BuildTool::Farm) {
                seq![
                    Platform::ElectronFarm(ElectronFarmPlatform::React),
                    Platform::ElectronFarm(ElectronFarmPlatform::Preact),
                    Platform::ElectronFarm(ElectronFarmPlatform::Vue),
                    Platform::ElectronFarm(ElectronFarmPlatform::Solid),
                    Platform::ElectronFarm(ElectronFarmPlatform::Svelte),
                ]
            } else {
                Seq::empty()
            },
            _ => Seq::empty(),
        }
    }

    /// The layer a framework belongs to.
    pub fn layer(&self) -> (r: ProjectLayer)
        ensures
            r == self.spec_layer(),
    {
        match self {
            Framework::React
            | Framework::Preact
            | Framework::Vue
            | Framework::Svelte
            | Framework::Solid
            | Framework::Lit
            | Framework::Qwik
            | Framework::Angular => ProjectLayer::Frontend,
            Framework::Next | Framework::Nuxt => ProjectLayer::Meta,
            Framework::Nest => ProjectLayer::Backend,
            Framework::Tauri | Framework::Electron => ProjectLayer::Desktop,
            Framework::ReactNative => ProjectLayer::Mobile,
        }
    }

    /// Whether the user must pick a build tool.
    pub fn needs_build_tool(&self) -> (r: bool)
        ensures
            r == self.spec_needs_build_tool(),
    {
        match self {
            Framework::React
            | Framework::Preact
            | Framework::Vue
            | Framework::Svelte
            | Framework::Solid
            | Framework::Lit
            | Framework::Tauri
            | Framework::Electron => true,
            _ => false,
        }
    }

    /// Whether the language is a real choice point.
    pub fn needs_language(&self) -> (r: bool)
        ensures
            r == self.spec_needs_language(),
    {
        match self {
            Framework::React
            | Framework::Preact
            | Framework::Vue
            | Framework::Svelte
            | Framework::Solid
            | Framework::Lit
            | Framework::Qwik => true,
            _ => false,
        }
    }

    /// Whether a platform choice is required given the chosen build tool.
    pub fn needs_platform(&self, build_tool: &Option<BuildTool>) -> (r: bool)
        ensures
            r == self.spec_needs_platform(*build_tool),
    {
        match self {
            Framework::React => matches!(build_tool, Some(BuildTool::Vite)),
            Framework::Angular => true,
            Framework::Nest => true,
            Framework::Tauri => true,
            Framework::Electron => true,
            _ => false,
        }
    }

    /// Whether this framework is Tauri, which asks for a user identity
    /// used inside its templates.
    pub fn is_tauri(&self) -> (r: bool)
        ensures
            r == (*self == Framework::Tauri),
    {
        matches!(self, Framework::Tauri)
    }

    /// The ordered set of build tools this framework supports.
    pub fn compatible_build_tools(&self) -> (r: Vec<BuildTool>)
        ensures
            r@ == self.spec_compatible_build_tools(),
    {
        let mut v: Vec<BuildTool> = Vec::new();
        match self {
            Framework::React
            | Framework::Preact
            | Framework::Vue
            | Framework::Svelte
            | Framework::Solid
            | Framework::Lit => {
                v.push(BuildTool::Vite);
                v.push(BuildTool::Farm);
                v.push(BuildTool::Rsbuild);
            },
            Framework::Qwik => {
                v.push(BuildTool::Vite);
            },
            Framework::Tauri | Framework::Electron => {
                v.push(BuildTool::Vite);
                v.push(BuildTool::Farm);
            },
            _ => {},
        }
        proof {
            assert(v@ =~= self.spec_compatible_build_tools());
        }
        v
    }

    /// The ordered set of platforms legal together with the given build
    /// tool.
    pub fn compatible_platforms(&self, build_tool: &Option<BuildTool>) -> (r: Vec<Platform>)
        ensures
            r@ == self.spec_compatible_platforms(*build_tool),
    {
        let mut v: Vec<Platform> = Vec::new();
        match self {
            Framework::React => {
                if matches!(build_tool, Some(BuildTool::Vite)) {
                    v.push(Platform::React(ReactVariant::Default));
                    v.push(Platform::React(ReactVariant::Swc));
                    v.push(Platform::React(ReactVariant::Compiler));
                }
            },
            Framework::Angular => {
                v.push(Platform::Angular(AngularVariant::Analog));
                v.push(Platform::Angular(AngularVariant::Angular));
            },
            Framework::Nest => {
                v.push(Platform::Nest(NestPlatform::Express));
                v.push(Platform::Nest(NestPlatform::Fastify));
            },
            Framework::Tauri => {
                v.push(Platform::Tauri(TauriPlatform::Preact));
                v.push(Platform::Tauri(TauriPlatform::React));
                v.push(Platform::Tauri(TauriPlatform::Vue));
                v.push(Platform::Tauri(TauriPlatform::Svelte));
                v.push(Platform::Tauri(TauriPlatform::Solid));
            },
            Framework::Electron => {
                if matches!(build_tool, Some(BuildTool::Vite)) {
                    v.push(Platform::ElectronVite(ElectronVitePlatform::React));
                    v.push(Platform::ElectronVite(ElectronVitePlatform::Vue));
                } else if matches!(build_tool, Some(BuildTool::Farm)) {
                    v.push(Platform::ElectronFarm(ElectronFarmPlatform::React));
                    v.push(Platform::ElectronFarm(ElectronFarmPlatform::Preact));
                    v.push(Platform::ElectronFarm(ElectronFarmPlatform::Vue));
                    v.push(Platform::ElectronFarm(ElectronFarmPlatform::Solid));
                    v.push(Platform::ElectronFarm(ElectronFarmPlatform::Svelte));
                }
            },
            _ => {},
        }
        proof {
            assert(v@ =~= self.spec_compatible_platforms(*build_tool));
        }
        v
    }
}

/// A build tool and its platform choice are consistent with the matrix:
/// present exactly when required, and drawn from the compatible sets.
pub open spec fn build_tool_valid(f: Framework, bt: Option<BuildTool>) -> bool {
    match bt {
        Some(b) => f.spec_needs_build_tool() && f.spec_compatible_build_tools().contains(b),
        None => !f.spec_needs_build_tool(),
    }
}

impl Framework {
    /// The lowercase tag a framework contributes to a path key.
    pub open spec fn spec_tag(self) -> Seq<char> {
        match self {
            Framework::React => "react"@,
            Framework::Preact => "preact"@,
            Framework::Vue => "vue"@,
            Framework::Svelte => "svelte"@,
            Framework::Solid => "solid"@,
            Framework::Lit => "lit"@,
            Framework::Qwik => "qwik"@,
            Framework::Angular => "angular"@,
            Framework::Next => "next"@,
            Framework::Nuxt => "nuxt"@,
            Framework::Nest => "nest"@,
            Framework::Tauri => "tauri"@,
            Framework::Electron => "electron"@,
            Framework::ReactNative => "reactnative"@,
        }
    }

    /// The lowercase tag a framework contributes to a path key.
    pub fn tag(&self) -> (r: &'static str)
        ensures
            r@ == self.spec_tag(),
    {
        match self {
            Framework::React => "react",
            Framework::Preact => "preact",
            Framework::Vue => "vue",
            Framework::Svelte => "svelte",
            Framework::Solid => "solid",
            Framework::Lit => "lit",
            Framework::Qwik => "qwik",
            Framework::Angular => "angular",
            Framework::Next => "next",
            Framework::Nuxt => "nuxt",
            Framework::Nest => "nest",
            Framework::Tauri => "tauri",
            Framework::Electron => "electron",
            Framework::ReactNative => "reactnative",
        }
    }

    /// The display name of a framework.
    pub open spec fn spec_display_name(self) -> Seq<char> {
        match self {
            Framework::React => "React"@,
            Framework::Preact => "Preact"@,
            Framework::Vue => "Vue"@,
            Framework::Svelte => "Svelte"@,
            Framework::Solid => "Solid"@,
            Framework::Lit => "Lit"@,
            Framework::Qwik => "Qwik"@,
            Framework::Angular => "Angular"@,
            Framework::Next => "Next"@,
            Framework::Nuxt => "Nuxt"@,
            Framework::Nest => "Nest"@,
            Framework::Tauri => "Tauri"@,
            Framework::Electron => "Electron"@,
            Framework::ReactNative => "React Native"@,
        }
    }

    /// The display name of a framework.
    pub fn display_name(&self) -> (r: &'static str)
        ensures
            r@ == self.spec_display_name(),
    {
        match self {
            Framework::React => "React",
            Framework::Preact => "Preact",
            Framework::Vue => "Vue",
            Framework::Svelte => "Svelte",
            Framework::Solid => "Solid",
            Framework::Lit => "Lit",
            Framework::Qwik => "Qwik",
            Framework::Angular => "Angular",
            Framework::Next => "Next",
            Framework::Nuxt => "Nuxt",
            Framework::Nest => "Nest",
            Framework::Tauri => "Tauri",
            Framework::Electron => "Electron",
            Framework::ReactNative => "React Native",
        }
    }
}

impl BuildTool {
    /// The lowercase tag a build tool contributes to a path key.
    pub open spec fn spec_tag(self) -> Seq<char> {
        match self {
            BuildTool::Vite => "vite"@,
            BuildTool::Farm => "farm"@,
            BuildTool::Rsbuild => "rsbuild"@,
        }
    }

    /// The lowercase tag a build tool contributes to a path key.
    pub fn tag(&self) -> (r: &'static str)
        ensures
            r@ == self.spec_tag(),
    {
        match self {
            BuildTool::Vite => "vite",
            BuildTool::Farm => "farm",
            BuildTool::Rsbuild => "rsbuild",
        }
    }

    /// The display name of a build tool.
    pub fn display_name(&self) -> (r: &'static str)
        ensures
            r@ == match *self {
                BuildTool::Vite => "Vite"@,
                BuildTool::Farm => "Farm"@,
                BuildTool::Rsbuild => "Rsbuild"@,
            },
    {
        match self {
            BuildTool::Vite => "Vite",
            BuildTool::Farm => "Farm",
            BuildTool::Rsbuild => "Rsbuild",
        }
    }
}

impl Language {
    /// The lowercase tag a language contributes to a path key.
    pub open spec fn spec_tag(self) -> Seq<char> {
        match self {
            Language::TypeScript => "ts"@,
            Language::JavaScript => "js"@,
        }
    }

    /// The lowercase tag a language contributes to a path key.
    pub fn tag(&self) -> (r: &'static str)
        ensures
            r@ == self.spec_tag(),
    {
        match self {
            Language::TypeScript => "ts",
            Language::JavaScript => "js",
        }
    }

    /// The display name of a language.
    pub fn display_name(&self) -> (r: &'static str)
        ensures
            r@ == match *self {
                Language::TypeScript => "TypeScript"@,
                Language::JavaScript => "JavaScript"@,
            },
    {
        match self {
            Language::TypeScript => "TypeScript",
            Language::JavaScript => "JavaScript",
        }
    }
}

impl Platform {
    /// The lowercase tag a platform contributes to a path key.
    pub open spec fn spec_tag(self) -> Seq<char> {
        match self {
            Platform::React(ReactVariant::Default) => "default"@,
            Platform::React(ReactVariant::Swc) => "swc"@,
            Platform::React(ReactVariant::Compiler) => "compiler"@,
            Platform::Angular(AngularVariant::Angular) => "angular"@,
            Platform::Angular(AngularVariant::Analog) => "analog"@,
            Platform::ElectronVite(ElectronVitePlatform::React) => "react"@,
            Platform::ElectronVite(ElectronVitePlatform::Vue) => "vue"@,
            Platform::ElectronFarm(ElectronFarmPlatform::React) => "react"@,
            Platform::ElectronFarm(ElectronFarmPlatform::Preact) => "preact"@,
            Platform::ElectronFarm(ElectronFarmPlatform::Vue) => "vue"@,
            Platform::ElectronFarm(ElectronFarmPlatform::Svelte) => "svelte"@,
            Platform::ElectronFarm(ElectronFarmPlatform::Solid) => "solid"@,
            Platform::Tauri(TauriPlatform::React) => "react"@,
            Platform::Tauri(TauriPlatform::Preact) => "preact"@,
            Platform::Tauri(TauriPlatform::Vue) => "vue"@,
            Platform::Tauri(TauriPlatform::Svelte) => "svelte"@,
            Platform::Tauri(TauriPlatform::Solid) => "solid"@,
            Platform::Nest(NestPlatform::Express) => "express"@,
            Platform::Nest(NestPlatform::Fastify) => "fastify"@,
        }
    }

    /// The lowercase tag a platform contributes to a path key.
    pub fn tag(&self) -> (r: &'static str)
        ensures
            r@ == self.spec_tag(),
    {
        match self {
            Platform::React(ReactVariant::Default) => "default",
            Platform::React(ReactVariant::Swc) => "swc",
            Platform::React(ReactVariant::Compiler) => "compiler",
            Platform::Angular(AngularVariant::Angular) => "angular",
            Platform::Angular(AngularVariant::Analog) => "analog",
            Platform::ElectronVite(ElectronVitePlatform::React) => "react",
            Platform::ElectronVite(ElectronVitePlatform::Vue) => "vue",
            Platform::ElectronFarm(ElectronFarmPlatform::React) => "react",
            Platform::ElectronFarm(ElectronFarmPlatform::Preact) => "preact",
            Platform::ElectronFarm(ElectronFarmPlatform::Vue) => "vue",
            Platform::ElectronFarm(ElectronFarmPlatform::Svelte) => "svelte",
            Platform::ElectronFarm(ElectronFarmPlatform::Solid) => "solid",
            Platform::Tauri(TauriPlatform::React) => "react",
            Platform::Tauri(TauriPlatform::Preact) => "preact",
            Platform::Tauri(TauriPlatform::Vue) => "vue",
            Platform::Tauri(TauriPlatform::Svelte) => "svelte",
            Platform::Tauri(TauriPlatform::Solid) => "solid",
            Platform::Nest(NestPlatform::Express) => "express",
            Platform::Nest(NestPlatform::Fastify) => "fastify",
        }
    }
}

impl PackageManager {
    /// The command a package manager is invoked as.
    pub fn command_name(&self) -> (r: &'static str)
        ensures
            r@ == match *self {
                PackageManager::NPM => "npm"@,
                PackageManager::Yarn => "yarn"@,
                PackageManager::PNPM => "pnpm"@,
                PackageManager::Bun => "bun"@,
            },
    {
        match self {
            PackageManager::NPM => "npm",
            PackageManager::Yarn => "yarn",
            PackageManager::PNPM => "pnpm",
            PackageManager::Bun => "bun",
        }
    }
}

impl ProjectLayer {
    /// The display name of a layer.
    pub fn display_name(&self) -> (r: &'static str)
        ensures
            r@ == match *self {
                ProjectLayer::Frontend => "Frontend"@,
                ProjectLayer::Meta => "Meta"@,
                ProjectLayer::Backend => "Backend"@,
                ProjectLayer::Desktop => "Desktop"@,
                ProjectLayer::Mobile => "Mobile"@,
            },
    {
        match self {
            ProjectLayer::Frontend => "Frontend",
            ProjectLayer::Meta => "Meta",
            ProjectLayer::Backend => "Backend",
            ProjectLayer::Desktop => "Desktop",
            ProjectLayer::Mobile => "Mobile",
        }
    }
}

/// Configuration questions a concrete framework type can answer.  Every
/// answer is pinned to the central table on [`Framework`], so the
/// per-layer enums cannot drift away from it.
pub trait FrameworkConfig: Sized {
    /// The entry of the central table this value stands for.
    spec fn spec_framework(&self) -> Framework;

    /// The entry of the central table this value stands for.
    fn framework(&self) -> (f: Framework)
        ensures
            f == self.spec_framework(),
    ;

    /// Whether the user must pick a build tool.
    fn needs_build_tool(&self) -> (r: bool)
        ensures
            r == self.spec_framework().spec_needs_build_tool(),
    ;

    /// Whether the language is a real choice point.
    fn needs_choose_language(&self) -> (r: bool)
        ensures
            r == self.spec_framework().spec_needs_language(),
    ;

    /// Whether a platform choice is required given the chosen build tool.
    fn needs_choose_paltform(&self, build_tool: &Option<BuildTool>) -> (r: bool)
        ensures
            r == self.spec_framework().spec_needs_platform(*build_tool),
    ;

    /// Whether this framework is Tauri.
    fn is_tauri(&self) -> (r: bool)
        ensures
            r == (self.spec_framework() == Framework::Tauri),
    ;

    /// The ordered set of build tools this framework supports.
    fn compatible_build_tools(&self) -> (r: Vec<BuildTool>)
        ensures
            r@ == self.spec_framework().spec_compatible_build_tools(),
    ;

    /// The ordered set of platforms legal with the given build tool.
    fn compatible_platforms(&self, build_tool: &Option<BuildTool>) -> (r: Vec<Platform>)
        ensures
            r@ == self.spec_framework().spec_compatible_platforms(*build_tool),
    ;
}

impl FrontendTool {
    /// The entry of the central table this tool stands for.
    pub open spec fn spec_as_framework(self) -> Framework {
        match self {
            FrontendTool::React => Framework::React,
            FrontendTool::Preact => Framework::Preact,
            FrontendTool::Vue => Framework::Vue,
            FrontendTool::Svelte => Framework::Svelte,
            FrontendTool::Solid => Framework::Solid,
            FrontendTool::Lit => Framework::Lit,
            FrontendTool::Qwik => Framework::Qwik,
            FrontendTool::Angular => Framework::Angular,
        }
    }
}

impl FrameworkConfig for FrontendTool {
    open spec fn spec_framework(&self) -> Framework {
        self.spec_as_framework()
    }

    fn framework(&self) -> (f: Framework) {
        match self {
            FrontendTool::React => Framework::React,
            FrontendTool::Preact => Framework::Preact,
            FrontendTool::Vue => Framework::Vue,
            FrontendTool::Svelte => Framework::Svelte,
            FrontendTool::Solid => Framework::Solid,
            FrontendTool::Lit => Framework::Lit,
            FrontendTool::Qwik => Framework::Qwik,
            FrontendTool::Angular => Framework::Angular,
        }
    }

    fn needs_build_tool(&self) -> (r: bool) {
        self.framework().needs_build_tool()
    }

    fn needs_choose_language(&self) -> (r: bool) {
        self.framework().needs_language()
    }

    fn needs_choose_paltform(&self, build_tool: &Option<BuildTool>) -> (r: bool) {
        self.framework().needs_platform(build_tool)
    }

    fn is_tauri(&self) -> (r: bool) {
        self.framework().is_tauri()
    }

    fn compatible_build_tools(&self) -> (r: Vec<BuildTool>) {
        self.framework().compatible_build_tools()
    }

    fn compatible_platforms(&self, build_tool: &Option<BuildTool>) -> (r: Vec<Platform>) {
        self.framework().compatible_platforms(build_tool)
    }
}

impl MetaFramework {
    /// The entry of the central table this framework stands for.
    pub open spec fn spec_as_framework(self) -> Framework {
        match self {
            MetaFramework::Next => Framework::Next,
            MetaFramework::Nuxt => Framework::Nuxt,
        }
    }
}

impl FrameworkConfig for MetaFramework {
    open spec fn spec_framework(&self) -> Framework {
        self.spec_as_framework()
    }

    fn framework(&self) -> (f: Framework) {
        match self {
            MetaFramework::Next => Framework::Next,
            MetaFramework::Nuxt => Framework::Nuxt,
        }
    }

    fn needs_build_tool(&self) -> (r: bool) {
        self.framework().needs_build_tool()
    }

    fn needs_choose_language(&self) -> (r: bool) {
        self.framework().needs_language()
    }

    fn needs_choose_paltform(&self, build_tool: &Option<BuildTool>) -> (r: bool) {
        self.framework().needs_platform(build_tool)
    }

    fn is_tauri(&self) -> (r: bool) {
        self.framework().is_tauri()
    }

    fn compatible_build_tools(&self) -> (r: Vec<BuildTool>) {
        self.framework().compatible_build_tools()
    }

    fn compatible_platforms(&self, build_tool: &Option<BuildTool>) -> (r: Vec<Platform>) {
        self.framework().compatible_platforms(build_tool)
    }
}

impl BackendTool {
    /// The entry of the central table this tool stands for.
    pub open spec fn spec_as_framework(self) -> Framework {
        match self {
            BackendTool::Nest => Framework::Nest,
        }
    }
}

impl FrameworkConfig for BackendTool {
    open spec fn spec_framework(&self) -> Framework {
        self.spec_as_framework()
    }

    fn framework(&self) -> (f: Framework) {
        match self {
            BackendTool::Nest => Framework::Nest,
        }
    }

    fn needs_build_tool(&self) -> (r: bool) {
        self.framework().needs_build_tool()
    }

    fn needs_choose_language(&self) -> (r: bool) {
        self.framework().needs_language()
    }

    fn needs_choose_paltform(&self, build_tool: &Option<BuildTool>) -> (r: bool) {
        self.framework().needs_platform(build_tool)
    }

    fn is_tauri(&self) -> (r: bool) {
        self.framework().is_tauri()
    }

    fn compatible_build_tools(&self) -> (r: Vec<BuildTool>) {
        self.framework().compatible_build_tools()
    }

    fn compatible_platforms(&self, build_tool: &Option<BuildTool>) -> (r: Vec<Platform>) {
        self.framework().compatible_platforms(build_tool)
    }
}

impl DesktopRuntime {
    /// The entry of the central table this runtime stands for.
    pub open spec fn spec_as_framework(self) -> Framework {
        match self {
            DesktopRuntime::Tauri => Framework::Tauri,
            DesktopRuntime::Electron => Framework::Electron,
        }
    }
}

impl FrameworkConfig for DesktopRuntime {
    open spec fn spec_framework(&self) -> Framework {
        self.spec_as_framework()
    }

    fn framework(&self) -> (f: Framework) {
        match self {
            DesktopRuntime::Tauri => Framework::Tauri,
            DesktopRuntime::Electron => Framework::Electron,
        }
    }

    fn needs_build_tool(&self) -> (r: bool) {
        self.framework().needs_build_tool()
    }

    fn needs_choose_language(&self) -> (r: bool) {
        self.framework().needs_language()
    }

    fn needs_choose_paltform(&self, build_tool: &Option<BuildTool>) -> (r: bool) {
        self.framework().needs_platform(build_tool)
    }

    fn is_tauri(&self) -> (r: bool) {
        self.framework().is_tauri()
    }

    fn compatible_build_tools(&self) -> (r: Vec<BuildTool>) {
        self.framework().compatible_build_tools()
    }

    fn compatible_platforms(&self, build_tool: &Option<BuildTool>) -> (r: Vec<Platform>) {
        self.framework().compatible_platforms(build_tool)
    }
}

impl MobileTool {
    /// The entry of the central table this tool stands for.
    pub open spec fn spec_as_framework(self) -> Framework {
        match self {
            MobileTool::ReactNative => Framework::ReactNative,
        }
    }
}

impl FrameworkConfig for MobileTool {
    open spec fn spec_framework(&self) -> Framework {
        self.spec_as_framework()
    }

    fn framework(&self) -> (f: Framework) {
        match self {
            MobileTool::ReactNative => Framework::ReactNative,
        }
    }

    fn needs_build_tool(&self) -> (r: bool) {
        self.framework().needs_build_tool()
    }

    fn needs_choose_language(&self) -> (r: bool) {
        self.framework().needs_language()
    }

    fn needs_choose_paltform(&self, build_tool: &Option<BuildTool>) -> (r: bool) {
        self.framework().needs_platform(build_tool)
    }

    fn is_tauri(&self) -> (r: bool) {
        self.framework().is_tauri()
    }

    fn compatible_build_tools(&self) -> (r: Vec<BuildTool>) {
        self.framework().compatible_build_tools()
    }

    fn compatible_platforms(&self, build_tool: &Option<BuildTool>) -> (r: Vec<Platform>) {
        self.framework().compatible_platforms(build_tool)
    }
}

/// Matrix self-consistency: whenever a platform choice is required for a
/// framework and a build tool that is itself legal for that framework,
/// the matrix offers at least one platform to choose from.
pub proof fn lemma_platform_availability(f: Framework, bt: Option<BuildTool>)
    requires
        build_tool_valid(f, bt),
        f.spec_needs_platform(bt),
    ensures
        f.spec_compatible_platforms(bt).len() > 0,
{
}

} // verus!
