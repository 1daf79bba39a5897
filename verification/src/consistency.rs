//! Matrix / store consistency: the system's top correctness property is
//! that every combination the matrix declares legal resolves to a key
//! that exists in the template store.
//!
//! The store's content only exists at run time, so the property is
//! established by a verified checker: if [`check_store_covers_matrix`]
//! returns true of a store, then by [`lemma_store_covers`] the lookup
//! of every well-formed selection's key succeeds in it.

use vstd::prelude::*;

use crate::matrix::{build_tool_valid, BuildTool, Framework, Language, Platform};
use crate::pathkey::{build_key, spec_key};
use crate::resolve::ResolvedSelection;
use crate::store::TemplateStore;

verus! {

/// The store holds a template directory for the selection's key.
pub open spec fn sel_covered(store: TemplateStore, sel: ResolvedSelection) -> bool {
    store.spec_lookup(spec_key(sel)) is Some
}

/// The platform dimension of a selection is consistent with the matrix.
pub open spec fn platform_valid(f: Framework, bt: Option<BuildTool>, p: Option<Platform>) -> bool {
    match p {
        Some(pp) => f.spec_needs_platform(bt) && f.spec_compatible_platforms(bt).contains(pp),
        None => !f.spec_needs_platform(bt),
    }
}

/// The language dimension of a selection is consistent with the matrix.
pub open spec fn lang_valid(f: Framework, l: Language) -> bool {
    !f.spec_needs_language() ==> l == Language::TypeScript
}

/// Every legal platform is covered for this framework, build tool and
/// language.
pub open spec fn bt_lang_covered(
    store: TemplateStore,
    f: Framework,
    bt: Option<BuildTool>,
    lang: Language,
) -> bool {
    forall|p: Option<Platform>|
        platform_valid(f, bt, p) ==> sel_covered(
            store,
            ResolvedSelection { framework: f, build_tool: bt, language: lang, platform: p },
        )
}

/// Every legal language and platform is covered for this framework and
/// build tool.
pub open spec fn bt_covered(store: TemplateStore, f: Framework, bt: Option<BuildTool>) -> bool {
    forall|l: Language| lang_valid(f, l) ==> bt_lang_covered(store, f, bt, l)
}

/// Every legal combination is covered for this framework.
pub open spec fn framework_covered(store: TemplateStore, f: Framework) -> bool {
    forall|bt: Option<BuildTool>| build_tool_valid(f, bt) ==> bt_covered(store, f, bt)
}

/// Every combination the matrix declares legal is covered.
pub open spec fn store_covers(store: TemplateStore) -> bool {
    forall|f: Framework| framework_covered(store, f)
}

/// Matrix / store consistency, in the form every caller uses: in a
/// store the checker accepted, the lookup of every well-formed
/// selection's key succeeds.
pub proof fn lemma_store_covers(store: TemplateStore, sel: ResolvedSelection)
    requires
        store_covers(store),
        sel.wf(),
    ensures
        sel_covered(store, sel),
{
    assert(build_tool_valid(sel.framework, sel.build_tool));
    assert(lang_valid(sel.framework, sel.language));
    assert(platform_valid(sel.framework, sel.build_tool, sel.platform));
    assert(framework_covered(store, sel.framework));
    assert(bt_covered(store, sel.framework, sel.build_tool));
    assert(bt_lang_covered(store, sel.framework, sel.build_tool, sel.language));
    assert(sel == (ResolvedSelection {
        framework: sel.framework,
        build_tool: sel.build_tool,
        language: sel.language,
        platform: sel.platform,
    }));
}

/// Whether the store covers one selection.
fn check_sel(store: &TemplateStore, sel: &ResolvedSelection) -> (r: bool)
    ensures
        r == sel_covered(*store, *sel),
{
    let key = build_key(sel);
    match store.lookup(&key) {
        Ok(_) => true,
        Err(_) => false,
    }
}

/// Whether the store covers every legal platform for this framework,
/// build tool and language.
fn check_platforms(
    store: &TemplateStore,
    f: Framework,
    bt: Option<BuildTool>,
    lang: Language,
) -> (r: bool)
    ensures
        r == bt_lang_covered(*store, f, bt, lang),
{
    if f.needs_platform(&bt) {
        let platforms = f.compatible_platforms(&bt);
        let mut i: usize = 0;
        while i < platforms.len()
            invariant
                0 <= i <= platforms@.len(),
                platforms@ == f.spec_compatible_platforms(bt),
                f.spec_needs_platform(bt),
                forall|j: int|
                    0 <= j < i ==> sel_covered(
                        *store,
                        ResolvedSelection {
                            framework: f,
                            build_tool: bt,
                            language: lang,
                            platform: Some(#[trigger] platforms@[j]),
                        },
                    ),
            decreases platforms@.len() - i,
        {
            let sel = ResolvedSelection {
                framework: f,
                build_tool: bt,
                language: lang,
                platform: Some(platforms[i]),
            };
            if !check_sel(store, &sel) {
                proof {
                    assert(platforms@.contains(platforms@[i as int]));
                    assert(platform_valid(f, bt, Some(platforms@[i as int])));
                    assert(!bt_lang_covered(*store, f, bt, lang));
                }
                return false;
            }
            i = i + 1;
        }
        proof {
            assert forall|p: Option<Platform>| platform_valid(f, bt, p) implies sel_covered(
                *store,
                ResolvedSelection { framework: f, build_tool: bt, language: lang, platform: p },
            ) by {
                match p {
                    Some(pp) => {
                        let j = choose|j: int|
                            0 <= j < platforms@.len() && platforms@[j] == pp;
                        assert(platforms@[j] == pp);
                    },
                    None => {},
                }
            }
        }
        true
    } else {
        let sel = ResolvedSelection { framework: f, build_tool: bt, language: lang, platform: None };
        let r = check_sel(store, &sel);
        proof {
            if r {
                assert forall|p: Option<Platform>| platform_valid(f, bt, p) implies sel_covered(
                    *store,
                    ResolvedSelection { framework: f, build_tool: bt, language: lang, platform: p },
                ) by {}
            } else {
                assert(platform_valid(f, bt, None::<Platform>));
                assert(!bt_lang_covered(*store, f, bt, lang));
            }
        }
        r
    }
}

/// Whether the store covers every legal language and platform for this
/// framework and build tool.
fn check_langs(store: &TemplateStore, f: Framework, bt: Option<BuildTool>) -> (r: bool)
    ensures
        r == bt_covered(*store, f, bt),
{
    if f.needs_language() {
        let ts = check_platforms(store, f, bt, Language::TypeScript);
        if !ts {
            proof {
                assert(lang_valid(f, Language::TypeScript));
            }
            return false;
        }
        let js = check_platforms(store, f, bt, Language::JavaScript);
        proof {
            if js {
                assert forall|l: Language| lang_valid(f, l) implies bt_lang_covered(
                    *store,
                    f,
                    bt,
                    l,
                ) by {
                    match l {
                        Language::TypeScript => {},
                        Language::JavaScript => {},
                    }
                }
            } else {
                assert(lang_valid(f, Language::JavaScript));
            }
        }
        js
    } else {
        let r = check_platforms(store, f, bt, Language::TypeScript);
        proof {
            if r {
                assert forall|l: Language| lang_valid(f, l) implies bt_lang_covered(
                    *store,
                    f,
                    bt,
                    l,
                ) by {}
            } else {
                assert(lang_valid(f, Language::TypeScript));
            }
        }
        r
    }
}

/// Whether the store covers every legal combination for this framework.
fn check_build_tools(store: &TemplateStore, f: Framework) -> (r: bool)
    ensures
        r == framework_covered(*store, f),
{
    if f.needs_build_tool() {
        let compat = f.compatible_build_tools();
        let mut i: usize = 0;
        while i < compat.len()
            invariant
                0 <= i <= compat@.len(),
                compat@ == f.spec_compatible_build_tools(),
                f.spec_needs_build_tool(),
                forall|j: int| 0 <= j < i ==> bt_covered(*store, f, Some(#[trigger] compat@[j])),
            decreases compat@.len() - i,
        {
            if !check_langs(store, f, Some(compat[i])) {
                proof {
                    assert(compat@.contains(compat@[i as int]));
                    assert(build_tool_valid(f, Some(compat@[i as int])));
                    assert(!framework_covered(*store, f));
                }
                return false;
            }
            i = i + 1;
        }
        proof {
            assert forall|bt: Option<BuildTool>| build_tool_valid(f, bt) implies bt_covered(
                *store,
                f,
                bt,
            ) by {
                match bt {
                    Some(b) => {
                        let j = choose|j: int| 0 <= j < compat@.len() && compat@[j] == b;
                        assert(compat@[j] == b);
                    },
                    None => {},
                }
            }
        }
        true
    } else {
        let r = check_langs(store, f, None);
        proof {
            if r {
                assert forall|bt: Option<BuildTool>| build_tool_valid(f, bt) implies bt_covered(
                    *store,
                    f,
                    bt,
                ) by {}
            } else {
                assert(build_tool_valid(f, None::<BuildTool>));
            }
        }
        r
    }
}

/// Every framework of the matrix, in a fixed order.
pub fn all_frameworks() -> (r: Vec<Framework>)
    ensures
        forall|f: Framework| r@.contains(f),
{
    let mut v: Vec<Framework> = Vec::new();
    v.push(Framework::React);
    v.push(Framework::Preact);
    v.push(Framework::Vue);
    v.push(Framework::Svelte);
    v.push(Framework::Solid);
    v.push(Framework::Lit);
    v.push(Framework::Qwik);
    v.push(Framework::Angular);
    v.push(Framework::Next);
    v.push(Framework::Nuxt);
    v.push(Framework::Nest);
    v.push(Framework::Tauri);
    v.push(Framework::Electron);
    v.push(Framework::ReactNative);
    proof {
        assert forall|f: Framework| v@.contains(f) by {
            match f {
                Framework::React => assert(v@[0] == f),
                Framework::Preact => assert(v@[1] == f),
                Framework::Vue => assert(v@[2] == f),
                Framework::Svelte => assert(v@[3] == f),
                Framework::Solid => assert(v@[4] == f),
                Framework::Lit => assert(v@[5] == f),
                Framework::Qwik => assert(v@[6] == f),
                Framework::Angular => assert(v@[7] == f),
                Framework::Next => assert(v@[8] == f),
                Framework::Nuxt => assert(v@[9] == f),
                Framework::Nest => assert(v@[10] == f),
                Framework::Tauri => assert(v@[11] == f),
                Framework::Electron => assert(v@[12] == f),
                Framework::ReactNative => assert(v@[13] == f),
            }
        }
    }
    v
}

/// Whether the store covers every combination the matrix declares
/// legal: the checker a deployment runs once over its packaged
/// template tree.
pub fn check_store_covers_matrix(store: &TemplateStore) -> (r: bool)
    ensures
        r == store_covers(*store),
{
    let fws = all_frameworks();
    let mut i: usize = 0;
    while i < fws.len()
        invariant
            0 <= i <= fws@.len(),
            forall|f: Framework| fws@.contains(f),
            forall|j: int| 0 <= j < i ==> framework_covered(*store, #[trigger] fws@[j]),
        decreases fws@.len() - i,
    {
        if !check_build_tools(store, fws[i]) {
            proof {
                assert(!framework_covered(*store, fws@[i as int]));
                assert(!store_covers(*store));
            }
            return false;
        }
        i = i + 1;
    }
    proof {
        assert forall|f: Framework| framework_covered(*store, f) by {
            assert(fws@.contains(f));
            let j = choose|j: int| 0 <= j < fws@.len() && fws@[j] == f;
            assert(framework_covered(*store, fws@[j]));
        }
    }
    true
}

} // verus!
