//! Parsing of user-supplied names back into matrix values.
//!
//! Each parser is the inverse of the tag / display-name side of the
//! table in [`crate::matrix`]: it compares the ASCII-lowercased input
//! against the same tags the table prints, so printing and parsing
//! cannot drift apart.

use vstd::prelude::*;

use crate::matrix::{
    AngularVariant, BackendTool, BuildTool, DesktopRuntime, ElectronFarmPlatform,
    ElectronVitePlatform, Framework, FrameworkConfig, FrontendTool, MetaFramework, MobileTool,
    NestPlatform, Platform, ProjectLayer, ReactVariant, TauriPlatform,
};
use crate::text::{eq_lower, spec_lower};

verus! {

/// An error message carrying the rejected input after a fixed prefix.
fn unknown_err(prefix: &str, s: &str) -> (r: String)
    ensures
        r@ == prefix@ + s@,
{
    let mut m = prefix.to_owned();
    m.append(s);
    m
}

/// The platform error message, carrying both the rejected platform and
/// the framework it was tried against.
fn unknown_platform_err(s: &str, framework: &str) -> (r: String)
    ensures
        r@ == "Unknown platform '"@ + s@ + "' for framework '"@ + framework@ + "'"@,
{
    let mut m = "Unknown platform '".to_owned();
    m.append(s);
    m.append("' for framework '");
    m.append(framework);
    m.append("'");
    proof {
        assert(m@ =~= "Unknown platform '"@ + s@ + "' for framework '"@ + framework@ + "'"@);
    }
    m
}

/// Which frontend framework a lowercased name denotes.
pub open spec fn spec_parse_frontend(l: Seq<char>) -> Option<FrontendTool> {
    if l == Framework::React.spec_tag() {
        Some(FrontendTool::React)
    } else if l == Framework::Preact.spec_tag() {
        Some(FrontendTool::Preact)
    } else if l == Framework::Vue.spec_tag() {
        Some(FrontendTool::Vue)
    } else if l == Framework::Svelte.spec_tag() {
        Some(FrontendTool::Svelte)
    } else if l == Framework::Solid.spec_tag() {
        Some(FrontendTool::Solid)
    } else if l == Framework::Lit.spec_tag() {
        Some(FrontendTool::Lit)
    } else if l == Framework::Qwik.spec_tag() {
        Some(FrontendTool::Qwik)
    } else if l == Framework::Angular.spec_tag() {
        Some(FrontendTool::Angular)
    } else {
        None
    }
}

/// Parse a frontend framework name, ignoring ASCII case.
pub fn parse_frontend_tool(s: &str) -> (r: Result<FrontendTool, String>)
    ensures
        match r {
            Ok(t) => spec_parse_frontend(spec_lower(s@)) == Some(t),
            Err(e) => spec_parse_frontend(spec_lower(s@)) is None && e@
                == "Unknown frontend framework: "@ + s@,
        },
{
    if eq_lower(s, "react") {
        Ok(FrontendTool::React)
    } else if eq_lower(s, "preact") {
        Ok(FrontendTool::Preact)
    } else if eq_lower(s, "vue") {
        Ok(FrontendTool::Vue)
    } else if eq_lower(s, "svelte") {
        Ok(FrontendTool::Svelte)
    } else if eq_lower(s, "solid") {
        Ok(FrontendTool::Solid)
    } else if eq_lower(s, "lit") {
        Ok(FrontendTool::Lit)
    } else if eq_lower(s, "qwik") {
        Ok(FrontendTool::Qwik)
    } else if eq_lower(s, "angular") {
        Ok(FrontendTool::Angular)
    } else {
        Err(unknown_err("Unknown frontend framework: ", s))
    }
}

/// Which backend framework a lowercased name denotes.
pub open spec fn spec_parse_backend(l: Seq<char>) -> Option<BackendTool> {
    if l == Framework::Nest.spec_tag() {
        Some(BackendTool::Nest)
    } else {
        None
    }
}

/// Parse a backend framework name, ignoring ASCII case.
pub fn parse_backend_tool(s: &str) -> (r: Result<BackendTool, String>)
    ensures
        match r {
            Ok(t) => spec_parse_backend(spec_lower(s@)) == Some(t),
            Err(e) => spec_parse_backend(spec_lower(s@)) is None && e@
                == "Unknown backend framework: "@ + s@,
        },
{
    if eq_lower(s, "nest") {
        Ok(BackendTool::Nest)
    } else {
        Err(unknown_err("Unknown backend framework: ", s))
    }
}

/// Which meta framework a lowercased name denotes.
pub open spec fn spec_parse_meta(l: Seq<char>) -> Option<MetaFramework> {
    if l == Framework::Next.spec_tag() {
        Some(MetaFramework::Next)
    } else if l == Framework::Nuxt.spec_tag() {
        Some(MetaFramework::Nuxt)
    } else {
        None
    }
}

/// Parse a meta-framework name, ignoring ASCII case.
pub fn parse_meta_framework(s: &str) -> (r: Result<MetaFramework, String>)
    ensures
        match r {
            Ok(t) => spec_parse_meta(spec_lower(s@)) == Some(t),
            Err(e) => spec_parse_meta(spec_lower(s@)) is None && e@ == "Unknown meta framework: "@
                + s@,
        },
{
    if eq_lower(s, "next") {
        Ok(MetaFramework::Next)
    } else if eq_lower(s, "nuxt") {
        Ok(MetaFramework::Nuxt)
    } else {
        Err(unknown_err("Unknown meta framework: ", s))
    }
}

/// Which desktop runtime a lowercased name denotes.
pub open spec fn spec_parse_desktop(l: Seq<char>) -> Option<DesktopRuntime> {
    if l == Framework::Tauri.spec_tag() {
        Some(DesktopRuntime::Tauri)
    } else if l == Framework::Electron.spec_tag() {
        Some(DesktopRuntime::Electron)
    } else {
        None
    }
}

/// Parse a desktop runtime name, ignoring ASCII case.
pub fn parse_desktop_runtime(s: &str) -> (r: Result<DesktopRuntime, String>)
    ensures
        match r {
            Ok(t) => spec_parse_desktop(spec_lower(s@)) == Some(t),
            Err(e) => spec_parse_desktop(spec_lower(s@)) is None && e@
                == "Unknown desktop runtime: "@ + s@,
        },
{
    if eq_lower(s, "tauri") {
        Ok(DesktopRuntime::Tauri)
    } else if eq_lower(s, "electron") {
        Ok(DesktopRuntime::Electron)
    } else {
        Err(unknown_err("Unknown desktop runtime: ", s))
    }
}

/// Which mobile framework a lowercased name denotes.
pub open spec fn spec_parse_mobile(l: Seq<char>) -> Option<MobileTool> {
    if l == "react-native"@ || l == Framework::ReactNative.spec_tag() {
        Some(MobileTool::ReactNative)
    } else {
        None
    }
}

/// Parse a mobile framework name, ignoring ASCII case.
pub fn parse_mobile_tool(s: &str) -> (r: Result<MobileTool, String>)
    ensures
        match r {
            Ok(t) => spec_parse_mobile(spec_lower(s@)) == Some(t),
            Err(e) => spec_parse_mobile(spec_lower(s@)) is None && e@
                == "Unknown mobile framework: "@ + s@,
        },
{
    if eq_lower(s, "react-native") || eq_lower(s, "reactnative") {
        Ok(MobileTool::ReactNative)
    } else {
        Err(unknown_err("Unknown mobile framework: ", s))
    }
}

/// Which framework a lowercased name denotes within a layer.
pub open spec fn spec_parse_framework(layer: ProjectLayer, l: Seq<char>) -> Option<Framework> {
    match layer {
        ProjectLayer::Frontend => match spec_parse_frontend(l) {
            Some(t) => Some(t.spec_as_framework()),
            None => None,
        },
        ProjectLayer::Meta => match spec_parse_meta(l) {
            Some(t) => Some(t.spec_as_framework()),
            None => None,
        },
        ProjectLayer::Backend => match spec_parse_backend(l) {
            Some(t) => Some(t.spec_as_framework()),
            None => None,
        },
        ProjectLayer::Desktop => match spec_parse_desktop(l) {
            Some(t) => Some(t.spec_as_framework()),
            None => None,
        },
        ProjectLayer::Mobile => match spec_parse_mobile(l) {
            Some(t) => Some(t.spec_as_framework()),
            None => None,
        },
    }
}

/// Parse a framework name within the given layer, ignoring ASCII case.
pub fn parse_framework(layer: ProjectLayer, s: &str) -> (r: Result<Framework, String>)
    ensures
        match r {
            Ok(f) => spec_parse_framework(layer, spec_lower(s@)) == Some(f),
            Err(e) => spec_parse_framework(layer, spec_lower(s@)) is None && e@ == match layer {
                ProjectLayer::Frontend => "Unknown frontend framework: "@ + s@,
                ProjectLayer::Meta => "Unknown meta framework: "@ + s@,
                ProjectLayer::Backend => "Unknown backend framework: "@ + s@,
                ProjectLayer::Desktop => "Unknown desktop runtime: "@ + s@,
                ProjectLayer::Mobile => "Unknown mobile framework: "@ + s@,
            },
        },
{
    match layer {
        ProjectLayer::Frontend => match parse_frontend_tool(s) {
            Ok(t) => Ok(t.framework()),
            Err(e) => Err(e),
        },
        ProjectLayer::Meta => match parse_meta_framework(s) {
            Ok(t) => Ok(t.framework()),
            Err(e) => Err(e),
        },
        ProjectLayer::Backend => match parse_backend_tool(s) {
            Ok(t) => Ok(t.framework()),
            Err(e) => Err(e),
        },
        ProjectLayer::Desktop => match parse_desktop_runtime(s) {
            Ok(t) => Ok(t.framework()),
            Err(e) => Err(e),
        },
        ProjectLayer::Mobile => match parse_mobile_tool(s) {
            Ok(t) => Ok(t.framework()),
            Err(e) => Err(e),
        },
    }
}

/// Which platform a lowercased name denotes for a framework name and
/// build tool.
pub open spec fn spec_parse_platform(fw: Seq<char>, bt: Option<BuildTool>, l: Seq<char>) -> Option<
    Platform,
> {
    if fw == Framework::React.spec_tag() && bt == Some(BuildTool::Vite) {
        if l == "default"@ {
            Some(Platform::React(ReactVariant::Default))
        } else if l == "swc"@ {
            Some(Platform::React(ReactVariant::Swc))
        } else if l == "compiler"@ {
            Some(Platform::React(ReactVariant::Compiler))
        } else {
            None
        }
    } else if fw == Framework::Angular.spec_tag() {
        if l == "angular"@ {
            Some(Platform::Angular(AngularVariant::Angular))
        } else if l == "analog"@ {
            Some(Platform::Angular(AngularVariant::Analog))
        } else {
            None
        }
    } else if fw == Framework::Electron.spec_tag() && bt == Some(BuildTool::Vite) {
        if l == "react"@ {
            Some(Platform::ElectronVite(ElectronVitePlatform::React))
        } else if l == "vue"@ {
            Some(Platform::ElectronVite(ElectronVitePlatform::Vue))
        } else {
            None
        }
    } else if fw == Framework::Electron.spec_tag() && bt == Some(BuildTool::Farm) {
        if l == "react"@ {
            Some(Platform::ElectronFarm(ElectronFarmPlatform::React))
        } else if l == "preact"@ {
            Some(Platform::ElectronFarm(ElectronFarmPlatform::Preact))
        } else if l == "vue"@ {
            Some(Platform::ElectronFarm(ElectronFarmPlatform::Vue))
        } else if l == "svelte"@ {
            Some(Platform::ElectronFarm(ElectronFarmPlatform::Svelte))
        } else if l == "solid"@ {
            Some(Platform::ElectronFarm(ElectronFarmPlatform::Solid))
        } else {
            None
        }
    } else if fw == Framework::Tauri.spec_tag() {
        if l == "react"@ {
            Some(Platform::Tauri(TauriPlatform::React))
        } else if l == "preact"@ {
            Some(Platform::Tauri(TauriPlatform::Preact))
        } else if l == "vue"@ {
            Some(Platform::Tauri(TauriPlatform::Vue))
        } else if l == "svelte"@ {
            Some(Platform::Tauri(TauriPlatform::Svelte))
        } else if l == "solid"@ {
            Some(Platform::Tauri(TauriPlatform::Solid))
        } else {
            None
        }
    } else if fw == Framework::Nest.spec_tag() {
        if l == "express"@ {
            Some(Platform::Nest(NestPlatform::Express))
        } else if l == "fastify"@ {
            Some(Platform::Nest(NestPlatform::Fastify))
        } else {
            None
        }
    } else {
        None
    }
}

/// Parse a platform name for the given framework name and build tool,
/// ignoring ASCII case.
pub fn parse_platform(s: &str, framework: &str, build_tool: &Option<BuildTool>) -> (r: Result<
    Platform,
    String,
>)
    ensures
        match r {
            Ok(p) => spec_parse_platform(spec_lower(framework@), *build_tool, spec_lower(s@))
                == Some(p),
            Err(e) => spec_parse_platform(spec_lower(framework@), *build_tool, spec_lower(s@))
                is None && e@ == "Unknown platform '"@ + s@ + "' for framework '"@ + framework@
                + "'"@,
        },
{
    let is_vite = matches!(build_tool, Some(BuildTool::Vite));
    let is_farm = matches!(build_tool, Some(BuildTool::Farm));
    if eq_lower(framework, "react") && is_vite {
        if eq_lower(s, "default") {
            Ok(Platform::React(ReactVariant::Default))
        } else if eq_lower(s, "swc") {
            Ok(Platform::React(ReactVariant::Swc))
        } else if eq_lower(s, "compiler") {
            Ok(Platform::React(ReactVariant::Compiler))
        } else {
            Err(unknown_platform_err(s, framework))
        }
    } else if eq_lower(framework, "angular") {
        if eq_lower(s, "angular") {
            Ok(Platform::Angular(AngularVariant::Angular))
        } else if eq_lower(s, "analog") {
            Ok(Platform::Angular(AngularVariant::Analog))
        } else {
            Err(unknown_platform_err(s, framework))
        }
    } else if eq_lower(framework, "electron") && is_vite {
        if eq_lower(s, "react") {
            Ok(Platform::ElectronVite(ElectronVitePlatform::React))
        } else if eq_lower(s, "vue") {
            Ok(Platform::ElectronVite(ElectronVitePlatform::Vue))
        } else {
            Err(unknown_platform_err(s, framework))
        }
    } else if eq_lower(framework, "electron") && is_farm {
        if eq_lower(s, "react") {
            Ok(Platform::ElectronFarm(ElectronFarmPlatform::React))
        } else if eq_lower(s, "preact") {
            Ok(Platform::ElectronFarm(ElectronFarmPlatform::Preact))
        } else if eq_lower(s, "vue") {
            Ok(Platform::ElectronFarm(ElectronFarmPlatform::Vue))
        } else if eq_lower(s, "svelte") {
            Ok(Platform::ElectronFarm(ElectronFarmPlatform::Svelte))
        } else if eq_lower(s, "solid") {
            Ok(Platform::ElectronFarm(ElectronFarmPlatform::Solid))
        } else {
            Err(unknown_platform_err(s, framework))
        }
    } else if eq_lower(framework, "tauri") {
        if eq_lower(s, "react") {
            Ok(Platform::Tauri(TauriPlatform::React))
        } else if eq_lower(s, "preact") {
            Ok(Platform::Tauri(TauriPlatform::Preact))
        } else if eq_lower(s, "vue") {
            Ok(Platform::Tauri(TauriPlatform::Vue))
        } else if eq_lower(s, "svelte") {
            Ok(Platform::Tauri(TauriPlatform::Svelte))
        } else if eq_lower(s, "solid") {
            Ok(Platform::Tauri(TauriPlatform::Solid))
        } else {
            Err(unknown_platform_err(s, framework))
        }
    } else if eq_lower(framework, "nest") {
        if eq_lower(s, "express") {
            Ok(Platform::Nest(NestPlatform::Express))
        } else if eq_lower(s, "fastify") {
            Ok(Platform::Nest(NestPlatform::Fastify))
        } else {
            Err(unknown_platform_err(s, framework))
        }
    } else {
        Err(unknown_platform_err(s, framework))
    }
}

/// What the table prints, the parsers read back: parsing a framework's
/// own tag within its own layer always yields that framework again, so
/// the printing and parsing sides of the table cannot drift apart.
pub proof fn lemma_tag_parse_round_trip(f: Framework)
    ensures
        spec_parse_framework(f.spec_layer(), spec_lower(f.spec_tag())) == Some(f),
{
    reveal_strlit("react");
    reveal_strlit("preact");
    reveal_strlit("vue");
    reveal_strlit("svelte");
    reveal_strlit("solid");
    reveal_strlit("lit");
    reveal_strlit("qwik");
    reveal_strlit("angular");
    reveal_strlit("next");
    reveal_strlit("nuxt");
    reveal_strlit("nest");
    reveal_strlit("tauri");
    reveal_strlit("electron");
    reveal_strlit("reactnative");
    reveal_strlit("react-native");
    assert(spec_lower("react"@) =~= "react"@);
    assert(spec_lower("preact"@) =~= "preact"@);
    assert(spec_lower("vue"@) =~= "vue"@);
    assert(spec_lower("svelte"@) =~= "svelte"@);
    assert(spec_lower("solid"@) =~= "solid"@);
    assert(spec_lower("lit"@) =~= "lit"@);
    assert(spec_lower("qwik"@) =~= "qwik"@);
    assert(spec_lower("angular"@) =~= "angular"@);
    assert(spec_lower("next"@) =~= "next"@);
    assert(spec_lower("nuxt"@) =~= "nuxt"@);
    assert(spec_lower("nest"@) =~= "nest"@);
    assert(spec_lower("tauri"@) =~= "tauri"@);
    assert(spec_lower("electron"@) =~= "electron"@);
    assert(spec_lower("reactnative"@) =~= "reactnative"@);
    match f {
        Framework::React => {
            assert(spec_parse_frontend(spec_lower("react"@)) == Some(FrontendTool::React));
        },
        Framework::Preact => {
            assert(spec_parse_frontend(spec_lower("preact"@)) == Some(FrontendTool::Preact));
        },
        Framework::Vue => {
            assert(spec_parse_frontend(spec_lower("vue"@)) == Some(FrontendTool::Vue));
        },
        Framework::Svelte => {
            assert("svelte"@[0] != "preact"@[0]);
            assert(spec_parse_frontend(spec_lower("svelte"@)) == Some(FrontendTool::Svelte));
        },
        Framework::Solid => {
            assert("solid"@[0] != "react"@[0]);
            assert(spec_parse_frontend(spec_lower("solid"@)) == Some(FrontendTool::Solid));
        },
        Framework::Lit => {
            assert("lit"@[0] != "vue"@[0]);
            assert(spec_parse_frontend(spec_lower("lit"@)) == Some(FrontendTool::Lit));
        },
        Framework::Qwik => {
            assert(spec_parse_frontend(spec_lower("qwik"@)) == Some(FrontendTool::Qwik));
        },
        Framework::Angular => {
            assert(spec_parse_frontend(spec_lower("angular"@)) == Some(FrontendTool::Angular));
        },
        Framework::Next => {
            assert(spec_parse_meta(spec_lower("next"@)) == Some(MetaFramework::Next));
        },
        Framework::Nuxt => {
            assert("nuxt"@[1] != "next"@[1]);
            assert(spec_parse_meta(spec_lower("nuxt"@)) == Some(MetaFramework::Nuxt));
        },
        Framework::Nest => {
            assert(spec_parse_backend(spec_lower("nest"@)) == Some(BackendTool::Nest));
        },
        Framework::Tauri => {
            assert(spec_parse_desktop(spec_lower("tauri"@)) == Some(DesktopRuntime::Tauri));
        },
        Framework::Electron => {
            assert(spec_parse_desktop(spec_lower("electron"@)) == Some(DesktopRuntime::Electron));
        },
        Framework::ReactNative => {
            assert(spec_parse_mobile(spec_lower("reactnative"@)) == Some(MobileTool::ReactNative));
        },
    }
}

} // verus!
