//! The path-key builder: the pure function that turns a resolved
//! selection into the canonical ordered sequence of lowercase tag
//! segments addressing a template directory.
//!
//! Segment order is fixed and changing it is a breaking change:
//! language tag (only where the language is a real choice point), build
//! tool tag if present, an injected build-tool tag for frameworks with
//! exactly one implicit build tool, framework tag, platform tag if
//! present.

use vstd::prelude::*;

use crate::matrix::{BuildTool, Framework, Language, Platform};
use crate::resolve::ResolvedSelection;

verus! {

/// The character sequences behind a sequence of strings.
pub open spec fn strings_view(v: Seq<String>) -> Seq<Seq<char>> {
    v.map_values(|s: String| s@)
}

/// The key segments contributed by each dimension, in the fixed order.
pub open spec fn spec_segments(
    language: Option<Language>,
    build_tool: Option<BuildTool>,
    framework: Framework,
    platform: Option<Platform>,
) -> Seq<Seq<char>> {
    let lang_part = match language {
        Some(l) => seq![l.spec_tag()],
        None => Seq::<Seq<char>>::empty(),
    };
    let bt_part = match build_tool {
        Some(b) => seq![b.spec_tag()],
        None => Seq::<Seq<char>>::empty(),
    };
    let injected = if build_tool is None && !framework.spec_needs_build_tool()
        && framework.spec_compatible_build_tools().len() == 1 {
        seq![framework.spec_compatible_build_tools()[0].spec_tag()]
    } else {
        Seq::<Seq<char>>::empty()
    };
    let pl_part = match platform {
        Some(p) => seq![p.spec_tag()],
        None => Seq::<Seq<char>>::empty(),
    };
    lang_part + bt_part + injected + seq![framework.spec_tag()] + pl_part
}

/// The canonical key of a resolved selection.  The language segment
/// appears only where the language is a real choice point of the
/// framework.
pub open spec fn spec_key(r: ResolvedSelection) -> Seq<Seq<char>> {
    spec_segments(
        if r.framework.spec_needs_language() {
            Some(r.language)
        } else {
            None
        },
        r.build_tool,
        r.framework,
        r.platform,
    )
}

/// The slash-joined form of a key, the template store's on-disk
/// addressing scheme.
pub open spec fn spec_join_key(segs: Seq<Seq<char>>) -> Seq<char>
    decreases segs.len(),
{
    if segs.len() == 0 {
        Seq::empty()
    } else {
        let rest = spec_join_key(segs.drop_last());
        if segs.len() == 1 {
            segs.last()
        } else {
            rest + seq!['/'] + segs.last()
        }
    }
}

/// Build the ordered key segments for the given dimensions.
pub fn build_segments(
    language: &Option<Language>,
    build_tool: &Option<BuildTool>,
    framework: &Framework,
    platform: &Option<Platform>,
) -> (r: Vec<String>)
    ensures
        strings_view(r@) == spec_segments(*language, *build_tool, *framework, *platform),
{
    let mut parts: Vec<String> = Vec::new();
    if let Some(l) = language {
        parts.push(l.tag().to_owned());
    }
    if let Some(b) = build_tool {
        parts.push(b.tag().to_owned());
    }
    if build_tool.is_none() && !framework.needs_build_tool() {
        let compat = framework.compatible_build_tools();
        if compat.len() == 1 {
            parts.push(compat[0].tag().to_owned());
        }
    }
    parts.push(framework.tag().to_owned());
    if let Some(p) = platform {
        parts.push(p.tag().to_owned());
    }
    proof {
        assert(strings_view(parts@) =~~= spec_segments(
            *language,
            *build_tool,
            *framework,
            *platform,
        ));
    }
    parts
}

/// Build the canonical key of a resolved selection.
pub fn build_key(r: &ResolvedSelection) -> (key: Vec<String>)
    ensures
        strings_view(key@) == spec_key(*r),
{
    let language = if r.framework.needs_language() {
        Some(r.language)
    } else {
        None
    };
    build_segments(&language, &r.build_tool, &r.framework, &r.platform)
}

/// Join key segments with slashes.
pub fn join_key(segs: &Vec<String>) -> (r: String)
    ensures
        r@ == spec_join_key(strings_view(segs@)),
{
    let mut out = String::new();
    let mut i: usize = 0;
    proof {
        reveal_strlit("/");
    }
    while i < segs.len()
        invariant
            0 <= i <= segs@.len(),
            out@ == spec_join_key(strings_view(segs@).subrange(0, i as int)),
            "/"@ =~= seq!['/'],
        decreases segs@.len() - i,
    {
        if i > 0 {
            out.append("/");
        }
        out.append(segs[i].as_str());
        proof {
            let full = strings_view(segs@);
            assert(full.subrange(0, i as int + 1).drop_last() =~= full.subrange(0, i as int));
            assert(full.subrange(0, i as int + 1).last() == segs@[i as int]@);
            if i == 0 {
                assert(out@ =~= spec_join_key(full.subrange(0, 1)));
            } else {
                assert(out@ =~= spec_join_key(full.subrange(0, i as int + 1)));
            }
        }
        i = i + 1;
    }
    proof {
        assert(strings_view(segs@).subrange(0, segs@.len() as int) =~= strings_view(segs@));
    }
    out
}

/// The slash-joined path of the given dimensions: the key segments in
/// the fixed order, joined with slashes.
pub fn generate_path(
    language: &Option<Language>,
    build_tool: &Option<BuildTool>,
    framework: &Framework,
    platform: &Option<Platform>,
) -> (r: String)
    ensures
        r@ == spec_join_key(spec_segments(*language, *build_tool, *framework, *platform)),
{
    let segs = build_segments(language, build_tool, framework, platform);
    join_key(&segs)
}

/// The path-key builder is pure and deterministic: the key is a
/// function of the resolved selection alone, so equal selections always
/// yield the identical key.
pub proof fn lemma_key_deterministic(a: ResolvedSelection, b: ResolvedSelection)
    requires
        a == b,
    ensures
        spec_key(a) == spec_key(b),
{
}

} // verus!
