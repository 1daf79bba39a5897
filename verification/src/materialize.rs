//! The materialization engine: a recursive pre-order walk over a
//! template tree that produces the exact plan of directories to create
//! and files to write under a destination root.
//!
//! Parametrized files are rendered against the context with the marker
//! stripped from their output name; every other file is copied
//! byte-for-byte.  Any single-file failure aborts the whole walk.  The
//! engine never re-checks the destination: the caller guarantees the
//! root is fresh before the plan is executed, so a failed run can be
//! deleted wholesale and retried.

use vstd::prelude::*;
use vstd::utf8::{decode_utf8, valid_utf8};

use crate::render::{spec_render, RenderContext, RenderError};
use crate::store::{spec_output_name, TemplateNode};

verus! {

/// One step of a materialization plan.
#[derive(Debug, Clone, PartialEq)]
pub enum Action {
    /// Create a directory.
    MkDir { path: String },
    /// Write a file with exactly these bytes.
    WriteRaw { path: String, contents: Vec<u8> },
    /// Write a rendered file with exactly this text.
    WriteRendered { path: String, contents: String },
}

/// The mathematical shape of a plan step.
pub enum SpecAction {
    MkDir { path: Seq<char> },
    WriteRaw { path: Seq<char>, contents: Seq<u8> },
    WriteRendered { path: Seq<char>, contents: Seq<char> },
}

impl View for Action {
    type V = SpecAction;

    open spec fn view(&self) -> SpecAction {
        match self {
            Action::MkDir { path } => SpecAction::MkDir { path: path@ },
            Action::WriteRaw { path, contents } => SpecAction::WriteRaw {
                path: path@,
                contents: contents@,
            },
            Action::WriteRendered { path, contents } => SpecAction::WriteRendered {
                path: path@,
                contents: contents@,
            },
        }
    }
}

/// The mathematical shape of a sequence of plan steps.
pub open spec fn actions_view(v: Seq<Action>) -> Seq<SpecAction> {
    v.map_values(|a: Action| a@)
}

/// Why materialization aborted.
#[derive(Debug, Clone, PartialEq)]
pub enum MaterializeError {
    /// Rendering the file at this output path failed.
    Render { path: String, error: RenderError },
}

/// The mathematical shape of a materialization failure.
pub enum SpecMaterializeError {
    /// The file is marked parametrized but its bytes are not UTF-8.
    InvalidUtf8 { path: Seq<char> },
    /// A placeholder in the file is malformed.
    Malformed { path: Seq<char> },
    /// A placeholder references a variable the context does not define.
    Undefined { path: Seq<char>, name: Seq<char> },
}

/// What materializing a single file yields: one write step, or the
/// failure that aborts the walk.
pub open spec fn spec_file_actions(
    name: Seq<char>,
    contents: Seq<u8>,
    parametrized: bool,
    dir: Seq<char>,
    vars: Map<Seq<char>, Seq<char>>,
) -> Result<Seq<SpecAction>, SpecMaterializeError> {
    if !parametrized {
        Ok(seq![SpecAction::WriteRaw { path: dir + seq!['/'] + name, contents }])
    } else {
        let path = dir + seq!['/'] + spec_output_name(name);
        if !valid_utf8(contents) {
            Err(SpecMaterializeError::InvalidUtf8 { path })
        } else {
            let text = decode_utf8(contents);
            match spec_render(text, vars) {
                Ok(t) => Ok(seq![SpecAction::WriteRendered { path, contents: t }]),
                Err(None) => Err(SpecMaterializeError::Malformed { path }),
                Err(Some(sp)) => Err(
                    SpecMaterializeError::Undefined { path, name: text.subrange(sp.0, sp.1) },
                ),
            }
        }
    }
}

/// What materializing a node into a directory yields.
pub open spec fn spec_node_actions(
    node: TemplateNode,
    dir: Seq<char>,
    vars: Map<Seq<char>, Seq<char>>,
) -> Result<Seq<SpecAction>, SpecMaterializeError>
    decreases node, 0int,
{
    match node {
        TemplateNode::File { name, contents, parametrized } => spec_file_actions(
            name@,
            contents@,
            parametrized,
            dir,
            vars,
        ),
        TemplateNode::Dir { name, children } => {
            let path = dir + seq!['/'] + name@;
            match spec_children_actions(children@, path, vars) {
                Ok(acts) => Ok(seq![SpecAction::MkDir { path }] + acts),
                Err(e) => Err(e),
            }
        },
    }
}

/// What materializing an ordered run of siblings yields, in order.
pub open spec fn spec_children_actions(
    nodes: Seq<TemplateNode>,
    dir: Seq<char>,
    vars: Map<Seq<char>, Seq<char>>,
) -> Result<Seq<SpecAction>, SpecMaterializeError>
    decreases nodes, nodes.len(),
{
    if nodes.len() == 0 {
        Ok(Seq::empty())
    } else {
        match spec_node_actions(nodes.first(), dir, vars) {
            Ok(head) => match spec_children_actions(nodes.drop_first(), dir, vars) {
                Ok(tail) => Ok(head + tail),
                Err(e) => Err(e),
            },
            Err(e) => Err(e),
        }
    }
}

/// What materializing a whole template into a destination root yields:
/// the root directory is created and the node's content lands directly
/// beneath it; the template root's own name does not appear.
pub open spec fn spec_materialize(
    node: TemplateNode,
    dest: Seq<char>,
    vars: Map<Seq<char>, Seq<char>>,
) -> Result<Seq<SpecAction>, SpecMaterializeError> {
    match node {
        TemplateNode::Dir { children, .. } => match spec_children_actions(children@, dest, vars) {
            Ok(acts) => Ok(seq![SpecAction::MkDir { path: dest }] + acts),
            Err(e) => Err(e),
        },
        TemplateNode::File { .. } => match spec_node_actions(node, dest, vars) {
            Ok(acts) => Ok(seq![SpecAction::MkDir { path: dest }] + acts),
            Err(e) => Err(e),
        },
    }
}

/// Byte preservation: the plan for a non-parametrized file is a single
/// write whose bytes are exactly the file's bytes.
pub proof fn lemma_byte_preservation(
    node: TemplateNode,
    dir: Seq<char>,
    vars: Map<Seq<char>, Seq<char>>,
)
    requires
        node matches TemplateNode::File { parametrized: false, .. },
    ensures
        spec_node_actions(node, dir, vars) matches Ok(acts) && acts =~= seq![
            SpecAction::WriteRaw {
                path: dir + seq!['/'] + node->File_name@,
                contents: node->File_contents@,
            },
        ],
{
}

/// The relation an executable failure bears to the specified one.
pub open spec fn error_matches(
    e: MaterializeError,
    se: SpecMaterializeError,
) -> bool {
    match e {
        MaterializeError::Render { path, error } => match error {
            RenderError::InvalidUtf8 => se == (SpecMaterializeError::InvalidUtf8 { path: path@ }),
            RenderError::MalformedPlaceholder => se == (SpecMaterializeError::Malformed {
                path: path@,
            }),
            RenderError::UndefinedVariable { name } => se == (SpecMaterializeError::Undefined {
                path: path@,
                name: name@,
            }),
        },
    }
}

/// Relies on `std::str::from_utf8`: it succeeds exactly on UTF-8 input
/// and decodes it to the corresponding characters.
#[verifier::external_body]
fn decode_utf8_bytes(v: &Vec<u8>) -> (r: Option<String>)
    ensures
        r is Some <==> valid_utf8(v@),
        r matches Some(s) ==> s@ == decode_utf8(v@),
{
    match std::str::from_utf8(v.as_slice()) {
        Ok(s) => Some(s.to_owned()),
        Err(_) => None,
    }
}

/// A path below a directory.
fn join_path(dir: &str, name: &str) -> (r: String)
    ensures
        r@ == dir@ + seq!['/'] + name@,
{
    let mut p = dir.to_owned();
    p.append("/");
    p.append(name);
    proof {
        reveal_strlit("/");
        assert("/"@ =~= seq!['/']);
        assert(p@ =~= dir@ + seq!['/'] + name@);
    }
    p
}

/// Copy a file's bytes for the plan.
fn copy_bytes(v: &Vec<u8>) -> (r: Vec<u8>)
    ensures
        r@ == v@,
{
    let mut out: Vec<u8> = Vec::new();
    let mut i: usize = 0;
    while i < v.len()
        invariant
            0 <= i <= v@.len(),
            out@ =~= v@.subrange(0, i as int),
        decreases v@.len() - i,
    {
        out.push(v[i]);
        i = i + 1;
    }
    proof {
        assert(out@ =~= v@);
    }
    out
}

/// The plan for one node placed inside a directory.
fn node_actions(node: &TemplateNode, dir: &str, ctx: &RenderContext) -> (r: Result<
    Vec<Action>,
    MaterializeError,
>)
    ensures
        match r {
            Ok(acts) => spec_node_actions(*node, dir@, ctx.spec_vars()) == Ok::<
                Seq<SpecAction>,
                SpecMaterializeError,
            >(actions_view(acts@)),
            Err(e) => spec_node_actions(*node, dir@, ctx.spec_vars()) matches Err(se)
                && error_matches(e, se),
        },
    decreases *node,
{
    match node {
        TemplateNode::File { name, contents, parametrized } => {
            if !*parametrized {
                let path = join_path(dir, name.as_str());
                let mut acts: Vec<Action> = Vec::new();
                acts.push(Action::WriteRaw { path, contents: copy_bytes(contents) });
                proof {
                    assert(actions_view(acts@) =~= seq![
                        SpecAction::WriteRaw {
                            path: dir@ + seq!['/'] + name@,
                            contents: contents@,
                        },
                    ]);
                }
                Ok(acts)
            } else {
                let out_name = crate::store::output_name(name.as_str());
                let path = join_path(dir, out_name.as_str());
                match decode_utf8_bytes(contents) {
                    None => Err(
                        MaterializeError::Render { path, error: RenderError::InvalidUtf8 },
                    ),
                    Some(text) => match crate::render::render_str(text.as_str(), ctx) {
                        Ok(rendered) => {
                            let mut acts: Vec<Action> = Vec::new();
                            acts.push(Action::WriteRendered { path, contents: rendered });
                            proof {
                                assert(actions_view(acts@) =~= seq![
                                    SpecAction::WriteRendered {
                                        path: dir@ + seq!['/'] + spec_output_name(name@),
                                        contents: rendered@,
                                    },
                                ]);
                            }
                            Ok(acts)
                        },
                        Err(err) => Err(MaterializeError::Render { path, error: err }),
                    },
                }
            }
        },
        TemplateNode::Dir { name, children } => {
            let path = join_path(dir, name.as_str());
            let ghost vars = ctx.spec_vars();
            let mut acts: Vec<Action> = Vec::new();
            let mut i: usize = 0;
            proof {
                assert(children@.skip(0) =~= children@);
                match spec_children_actions(children@, path@, vars) {
                    Ok(t) => {
                        assert(Seq::<SpecAction>::empty() + t =~= t);
                    },
                    Err(_) => {},
                }
            }
            while i < children.len()
                invariant
                    0 <= i <= children@.len(),
                    vars == ctx.spec_vars(),
                    node is Dir,
                    node->Dir_name == *name,
                    node->Dir_children == *children,
                    path@ == dir@ + seq!['/'] + name@,
                    (spec_children_actions(children@.skip(i as int), path@, vars) matches Ok(t)
                        ==> spec_children_actions(children@, path@, vars) == Ok::<
                        Seq<SpecAction>,
                        SpecMaterializeError,
                    >(actions_view(acts@) + t)),
                    (spec_children_actions(children@.skip(i as int), path@, vars) matches Err(se)
                        ==> spec_children_actions(children@, path@, vars) == Err::<
                        Seq<SpecAction>,
                        SpecMaterializeError,
                    >(se)),
                decreases children@.len() - i,
            {
                proof {
                    assert(children@.skip(i as int).first() == children@[i as int]);
                    assert(children@.skip(i as int).drop_first() =~= children@.skip(i as int + 1));
                    assert(decreases_to!(*node => node->Dir_children));
                    assert(decreases_to!(node->Dir_children => children@[i as int]));
                }
                match node_actions(&children[i], path.as_str(), ctx) {
                    Ok(mut sub) => {
                        let ghost prev = acts@;
                        let ghost subv = sub@;
                        acts.append(&mut sub);
                        proof {
                            assert(acts@ =~= prev + subv);
                            assert(actions_view(prev + subv) =~= actions_view(prev)
                                + actions_view(subv));
                            match spec_children_actions(children@.skip(i as int + 1), path@, vars) {
                                Ok(t) => {
                                    assert((actions_view(prev) + actions_view(subv)) + t
                                        =~= actions_view(prev) + (actions_view(subv) + t));
                                },
                                Err(_) => {},
                            }
                        }
                    },
                    Err(e) => {
                        return Err(e);
                    },
                }
                i = i + 1;
            }
            proof {
                assert(children@.skip(children@.len() as int).len() == 0);
                match spec_children_actions(children@, path@, vars) {
                    Ok(t) => {
                        assert(actions_view(acts@) + Seq::<SpecAction>::empty() =~= actions_view(
                            acts@,
                        ));
                    },
                    Err(_) => {},
                }
            }
            let mut result: Vec<Action> = Vec::new();
            let ghost pathv = path@;
            result.push(Action::MkDir { path });
            let ghost children_acts = acts@;
            result.append(&mut acts);
            proof {
                assert(actions_view(result@) =~= seq![SpecAction::MkDir { path: pathv }]
                    + actions_view(children_acts));
            }
            Ok(result)
        },
    }
}

/// Materialize a template node into a fresh destination root: the plan
/// creates the root, then reproduces the node's content beneath it in
/// pre-order, rendering parametrized files and copying all others
/// byte-for-byte.
pub fn materialize(node: &TemplateNode, dest_root: &str, ctx: &RenderContext) -> (r: Result<
    Vec<Action>,
    MaterializeError,
>)
    ensures
        match r {
            Ok(acts) => spec_materialize(*node, dest_root@, ctx.spec_vars()) == Ok::<
                Seq<SpecAction>,
                SpecMaterializeError,
            >(actions_view(acts@)),
            Err(e) => spec_materialize(*node, dest_root@, ctx.spec_vars()) matches Err(se)
                && error_matches(e, se),
        },
{
    let ghost vars = ctx.spec_vars();
    let mut result: Vec<Action> = Vec::new();
    result.push(Action::MkDir { path: dest_root.to_owned() });
    match node {
        TemplateNode::Dir { name, children } => {
            let mut i: usize = 0;
            proof {
                assert(children@.skip(0) =~= children@);
                match spec_children_actions(children@, dest_root@, vars) {
                    Ok(t) => {
                        assert(actions_view(result@) =~= seq![
                            SpecAction::MkDir { path: dest_root@ },
                        ]);
                    },
                    Err(_) => {},
                }
            }
            while i < children.len()
                invariant
                    0 <= i <= children@.len(),
                    vars == ctx.spec_vars(),
                    node is Dir,
                    node->Dir_name == *name,
                    node->Dir_children == *children,
                    result@.len() >= 1,
                    actions_view(result@)[0] == (SpecAction::MkDir { path: dest_root@ }),
                    (spec_children_actions(children@.skip(i as int), dest_root@, vars) matches Ok(
                        t,
                    ) ==> spec_children_actions(children@, dest_root@, vars) == Ok::<
                        Seq<SpecAction>,
                        SpecMaterializeError,
                    >(actions_view(result@).drop_first() + t)),
                    (spec_children_actions(children@.skip(i as int), dest_root@, vars)
                        matches Err(se) ==> spec_children_actions(children@, dest_root@, vars)
                        == Err::<Seq<SpecAction>, SpecMaterializeError>(se)),
                decreases children@.len() - i,
            {
                proof {
                    assert(children@.skip(i as int).first() == children@[i as int]);
                    assert(children@.skip(i as int).drop_first() =~= children@.skip(i as int + 1));
                }
                match node_actions(&children[i], dest_root, ctx) {
                    Ok(mut sub) => {
                        let ghost prev = result@;
                        let ghost subv = sub@;
                        result.append(&mut sub);
                        proof {
                            assert(result@ =~= prev + subv);
                            assert(actions_view(prev + subv) =~= actions_view(prev)
                                + actions_view(subv));
                            assert(actions_view(result@).drop_first() =~= actions_view(
                                prev,
                            ).drop_first() + actions_view(subv));
                            match spec_children_actions(
                                children@.skip(i as int + 1),
                                dest_root@,
                                vars,
                            ) {
                                Ok(t) => {
                                    assert((actions_view(prev).drop_first() + actions_view(subv))
                                        + t =~= actions_view(prev).drop_first() + (actions_view(
                                        subv,
                                    ) + t));
                                },
                                Err(_) => {},
                            }
                        }
                    },
                    Err(e) => {
                        return Err(e);
                    },
                }
                i = i + 1;
            }
            proof {
                assert(children@.skip(children@.len() as int).len() == 0);
                match spec_children_actions(children@, dest_root@, vars) {
                    Ok(t) => {
                        assert(actions_view(result@).drop_first() + Seq::<SpecAction>::empty()
                            =~= actions_view(result@).drop_first());
                        assert(actions_view(result@) =~= seq![
                            SpecAction::MkDir { path: dest_root@ },
                        ] + actions_view(result@).drop_first());
                    },
                    Err(_) => {},
                }
            }
            Ok(result)
        },
        TemplateNode::File { .. } => {
            match node_actions(node, dest_root, ctx) {
                Ok(mut sub) => {
                    let ghost prev = result@;
                    let ghost subv = sub@;
                    result.append(&mut sub);
                    proof {
                        assert(result@ =~= prev + subv);
                        assert(actions_view(prev + subv) =~= actions_view(prev) + actions_view(
                            subv,
                        ));
                        assert(actions_view(prev) =~= seq![SpecAction::MkDir { path: dest_root@ }]);
                    }
                    Ok(result)
                },
                Err(e) => Err(e),
            }
        },
    }
}

} // verus!
