//! The selection resolver: validates and completes a partially-filled
//! selection against the compatibility matrix, or reports the next
//! missing dimension together with its legal domain.
//!
//! Resolution follows a fixed order that is never reordered:
//! build tool (if required), then language (defaulted to TypeScript
//! when it is not a real choice), then platform (if required given the
//! chosen build tool).

use vstd::prelude::*;

use crate::matrix::{build_tool_valid, BuildTool, Framework, Language, Platform};

verus! {

/// A user's choices, possibly not yet filled in every dimension.
/// The layer is implied by the framework.
#[derive(Debug, Clone, Copy, PartialEq)]
pub struct Selection {
    pub framework: Framework,
    pub build_tool: Option<BuildTool>,
    pub language: Option<Language>,
    pub platform: Option<Platform>,
}

/// A selection whose every required field is present and validated
/// against the compatibility matrix.  Immutable once produced.
#[derive(Debug, Clone, Copy, PartialEq)]
pub struct ResolvedSelection {
    pub framework: Framework,
    pub build_tool: Option<BuildTool>,
    pub language: Language,
    pub platform: Option<Platform>,
}

impl ResolvedSelection {
    /// Consistency with the matrix: the build tool is present exactly
    /// when required and drawn from the compatible set, the language is
    /// the forced default wherever it is not a real choice, and the
    /// platform is present exactly when required and drawn from the
    /// compatible set.
    pub open spec fn wf(self) -> bool {
        &&& build_tool_valid(self.framework, self.build_tool)
        &&& (!self.framework.spec_needs_language() ==> self.language == Language::TypeScript)
        &&& match self.platform {
            Some(p) => self.framework.spec_needs_platform(self.build_tool)
                && self.framework.spec_compatible_platforms(self.build_tool).contains(p),
            None => !self.framework.spec_needs_platform(self.build_tool),
        }
    }
}

/// Why a selection was rejected.  Every error carries the values that
/// produced it, so a maintainer can tell whether the defect lies in the
/// caller's input or in the matrix itself.
#[derive(Debug, Clone, Copy, PartialEq)]
pub enum ResolutionError {
    /// The framework name did not denote any framework of its layer.
    UnknownFramework,
    /// The supplied build tool is not among the compatible build tools
    /// of the framework.
    IncompatibleBuildTool { framework: Framework, build_tool: BuildTool },
    /// The supplied platform is not among the compatible platforms of
    /// the framework and build tool.
    IncompatiblePlatform { framework: Framework, build_tool: Option<BuildTool>, platform: Platform },
    /// A platform choice is required but the matrix offers none: a
    /// matrix-authoring defect, caught here rather than passed on.
    NoPlatformsAvailable { framework: Framework, build_tool: Option<BuildTool> },
    /// A language was supplied although the rule forces the default.
    LanguageOverrideRejected { framework: Framework, language: Language },
}

impl ResolutionError {
    /// A short description of the error.
    pub fn message(&self) -> (r: &'static str)
        ensures
            r@ == match *self {
                ResolutionError::UnknownFramework => "unknown framework"@,
                ResolutionError::IncompatibleBuildTool { .. } => (
                "build tool is not compatible with the framework"@),
                ResolutionError::IncompatiblePlatform { .. } => (
                "platform is not compatible with the framework and build tool"@),
                ResolutionError::NoPlatformsAvailable { .. } => (
                "the matrix offers no platform although one is required"@),
                ResolutionError::LanguageOverrideRejected { .. } => (
                "the language of this framework is fixed and cannot be overridden"@),
            },
    {
        match self {
            ResolutionError::UnknownFramework => "unknown framework",
            ResolutionError::IncompatibleBuildTool { .. } => (
            "build tool is not compatible with the framework"),
            ResolutionError::IncompatiblePlatform { .. } => (
            "platform is not compatible with the framework and build tool"),
            ResolutionError::NoPlatformsAvailable { .. } => (
            "the matrix offers no platform although one is required"),
            ResolutionError::LanguageOverrideRejected { .. } => (
            "the language of this framework is fixed and cannot be overridden"),
        }
    }
}

/// The next dimension a caller still has to fill, with its legal domain
/// in the order the domain is offered.
#[derive(Debug, Clone, PartialEq)]
pub enum MissingField {
    BuildTool(Vec<BuildTool>),
    Language(Vec<Language>),
    Platform(Vec<Platform>),
}

/// A build tool is required but not yet chosen.
pub open spec fn missing_build_tool(s: Selection) -> bool {
    s.build_tool is None && s.framework.spec_needs_build_tool()
}

/// The language is a real choice point but not yet chosen.
pub open spec fn missing_language(s: Selection) -> bool {
    s.language is None && s.framework.spec_needs_language()
}

/// A platform is required, can actually be offered, and is not yet
/// chosen.  When the matrix offers no platform at all there is nothing
/// to ask; [`validate`] reports that defect instead.
pub open spec fn missing_platform(s: Selection) -> bool {
    s.platform is None && s.framework.spec_needs_platform(s.build_tool)
        && s.framework.spec_compatible_platforms(s.build_tool).len() > 0
}

/// No dimension remains to be asked of the user.
pub open spec fn spec_complete(s: Selection) -> bool {
    !missing_build_tool(s) && !missing_language(s) && !missing_platform(s)
}

/// The first dimension still to fill, in the fixed resolution order,
/// together with its legal domain; `None` when the selection is
/// complete.
pub fn next_missing_field(s: &Selection) -> (r: Option<MissingField>)
    ensures
        match r {
            None => spec_complete(*s),
            Some(m) => match m {
                MissingField::BuildTool(d) => missing_build_tool(*s) && d@
                    == s.framework.spec_compatible_build_tools(),
                MissingField::Language(d) => !missing_build_tool(*s) && missing_language(*s) && d@
                    == seq![Language::TypeScript, Language::JavaScript],
                MissingField::Platform(d) => !missing_build_tool(*s) && !missing_language(*s)
                    && missing_platform(*s) && d@
                    == s.framework.spec_compatible_platforms(s.build_tool),
            },
        },
{
    if s.build_tool.is_none() && s.framework.needs_build_tool() {
        return Some(MissingField::BuildTool(s.framework.compatible_build_tools()));
    }
    if s.language.is_none() && s.framework.needs_language() {
        let mut d: Vec<Language> = Vec::new();
        d.push(Language::TypeScript);
        d.push(Language::JavaScript);
        proof {
            assert(d@ =~= seq![Language::TypeScript, Language::JavaScript]);
        }
        return Some(MissingField::Language(d));
    }
    if s.platform.is_none() && s.framework.needs_platform(&s.build_tool) {
        let domain = s.framework.compatible_platforms(&s.build_tool);
        if domain.len() > 0 {
            return Some(MissingField::Platform(domain));
        }
    }
    None
}

/// Whether a build tool occurs in a domain vector.
pub fn contains_build_tool(v: &Vec<BuildTool>, b: BuildTool) -> (r: bool)
    ensures
        r == v@.contains(b),
{
    let mut i: usize = 0;
    while i < v.len()
        invariant
            0 <= i <= v@.len(),
            forall|j: int| 0 <= j < i ==> v@[j] != b,
        decreases v@.len() - i,
    {
        if v[i] == b {
            return true;
        }
        i = i + 1;
    }
    false
}

/// Whether a platform occurs in a domain vector.
pub fn contains_platform(v: &Vec<Platform>, p: Platform) -> (r: bool)
    ensures
        r == v@.contains(p),
{
    let mut i: usize = 0;
    while i < v.len()
        invariant
            0 <= i <= v@.len(),
            forall|j: int| 0 <= j < i ==> v@[j] != p,
        decreases v@.len() - i,
    {
        if v[i] == p {
            return true;
        }
        i = i + 1;
    }
    false
}

/// The supplied build tool is not in the compatible set.
pub open spec fn cond_incompatible_build_tool(s: Selection) -> bool {
    match s.build_tool {
        Some(b) => !s.framework.spec_compatible_build_tools().contains(b),
        None => false,
    }
}

/// The build tool the resolved selection will carry: the choice where
/// one is required, and nothing where the framework ignores the
/// dimension.
pub open spec fn norm_build_tool(s: Selection) -> Option<BuildTool> {
    if s.framework.spec_needs_build_tool() {
        s.build_tool
    } else {
        None
    }
}

/// A language was supplied although the rule forces the default.
pub open spec fn cond_language_override(s: Selection) -> bool {
    !s.framework.spec_needs_language() && match s.language {
        Some(l) => l != Language::TypeScript,
        None => false,
    }
}

/// The language the resolved selection will carry.
pub open spec fn norm_language(s: Selection) -> Language {
    if s.framework.spec_needs_language() {
        match s.language {
            Some(l) => l,
            None => Language::TypeScript,
        }
    } else {
        Language::TypeScript
    }
}

/// A platform choice is required but the matrix offers none.
pub open spec fn cond_no_platforms(s: Selection) -> bool {
    s.framework.spec_needs_platform(norm_build_tool(s))
        && s.framework.spec_compatible_platforms(norm_build_tool(s)).len() == 0
}

/// A platform was supplied that is not required and compatible.
pub open spec fn cond_incompatible_platform(s: Selection) -> bool {
    match s.platform {
        Some(p) => !(s.framework.spec_needs_platform(norm_build_tool(s))
            && s.framework.spec_compatible_platforms(norm_build_tool(s)).contains(p)),
        None => false,
    }
}

/// Validate a complete selection against the matrix and freeze it into
/// a [`ResolvedSelection`], or report the first violated rule in the
/// fixed resolution order.
pub fn validate(s: &Selection) -> (r: Result<ResolvedSelection, ResolutionError>)
    requires
        spec_complete(*s),
    ensures
        match r {
            Ok(rs) => {
                &&& !cond_incompatible_build_tool(*s)
                &&& !cond_language_override(*s)
                &&& !cond_no_platforms(*s)
                &&& !cond_incompatible_platform(*s)
                &&& rs.framework == s.framework
                &&& rs.build_tool == norm_build_tool(*s)
                &&& rs.language == norm_language(*s)
                &&& rs.platform == s.platform
                &&& rs.wf()
            },
            Err(e) => match e {
                ResolutionError::IncompatibleBuildTool { framework, build_tool } => {
                    &&& cond_incompatible_build_tool(*s)
                    &&& framework == s.framework
                    &&& Some(build_tool) == s.build_tool
                },
                ResolutionError::LanguageOverrideRejected { framework, language } => {
                    &&& !cond_incompatible_build_tool(*s)
                    &&& cond_language_override(*s)
                    &&& framework == s.framework
                    &&& Some(language) == s.language
                },
                ResolutionError::NoPlatformsAvailable { framework, build_tool } => {
                    &&& !cond_incompatible_build_tool(*s)
                    &&& !cond_language_override(*s)
                    &&& cond_no_platforms(*s)
                    &&& framework == s.framework
                    &&& build_tool == norm_build_tool(*s)
                },
                ResolutionError::IncompatiblePlatform { framework, build_tool, platform } => {
                    &&& !cond_incompatible_build_tool(*s)
                    &&& !cond_language_override(*s)
                    &&& !cond_no_platforms(*s)
                    &&& cond_incompatible_platform(*s)
                    &&& framework == s.framework
                    &&& build_tool == norm_build_tool(*s)
                    &&& Some(platform) == s.platform
                },
                ResolutionError::UnknownFramework => false,
            },
        },
{
    let f = s.framework;

    // Build tool: reject a choice outside the compatible set, and drop
    // a redundant choice for frameworks that ignore the dimension.
    if let Some(b) = s.build_tool {
        let compat = f.compatible_build_tools();
        let found = contains_build_tool(&compat, b);
        if !found {
            return Err(ResolutionError::IncompatibleBuildTool { framework: f, build_tool: b });
        }
    }
    let build_tool = if f.needs_build_tool() {
        s.build_tool
    } else {
        None
    };

    // Language: forced to the default wherever it is not a choice.
    if !f.needs_language() {
        if let Some(l) = s.language {
            if !matches!(l, Language::TypeScript) {
                return Err(
                    ResolutionError::LanguageOverrideRejected { framework: f, language: l },
                );
            }
        }
    }
    let language = if f.needs_language() {
        match s.language {
            Some(l) => l,
            None => Language::TypeScript,
        }
    } else {
        Language::TypeScript
    };

    // Platform: a required choice must exist and be offered; an
    // unrequired choice is rejected rather than silently dropped.
    let platforms = f.compatible_platforms(&build_tool);
    if f.needs_platform(&build_tool) && platforms.len() == 0 {
        return Err(ResolutionError::NoPlatformsAvailable { framework: f, build_tool });
    }
    if let Some(p) = s.platform {
        let found = contains_platform(&platforms, p);
        if !f.needs_platform(&build_tool) || !found {
            return Err(
                ResolutionError::IncompatiblePlatform { framework: f, build_tool, platform: p },
            );
        }
    }

    Ok(ResolvedSelection { framework: f, build_tool, language, platform: s.platform })
}

/// For any complete selection whose build tool passed its own check,
/// the matrix can never turn out to offer no platform where one is
/// required: the defect [`ResolutionError::NoPlatformsAvailable`]
/// guards against cannot arise from this matrix.
pub proof fn lemma_no_platform_defect(s: Selection)
    requires
        spec_complete(s),
        !cond_incompatible_build_tool(s),
    ensures
        !cond_no_platforms(s),
{
}

/// Platform availability never fails for Angular in particular,
/// whatever build tool the selection carries.
pub proof fn lemma_angular_platforms_available(s: Selection)
    requires
        s.framework == Framework::Angular,
    ensures
        !cond_no_platforms(s),
{
}

} // verus!
