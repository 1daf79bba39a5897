//! The template store: a read-only, addressable tree of packaged
//! template content.  A lookup miss for a key the matrix considers
//! legal signals that the template tree and the matrix have fallen out
//! of sync; it is surfaced as [`LookupError::TemplateNotFound`], never
//! treated as a user input error.

use vstd::prelude::*;

use crate::pathkey::strings_view;

verus! {

/// The marker extension denoting a parametrized file.
pub open spec fn spec_has_marker(name: Seq<char>) -> bool {
    name.len() >= 5 && name.subrange(name.len() - 5, name.len() as int) == ".tera"@
}

/// The output name of a file: the marker is stripped where present.
pub open spec fn spec_output_name(name: Seq<char>) -> Seq<char> {
    if spec_has_marker(name) {
        name.subrange(0, name.len() - 5)
    } else {
        name
    }
}

/// Whether a file name carries the parametrized marker.
pub fn has_marker(name: &str) -> (r: bool)
    ensures
        r == spec_has_marker(name@),
{
    let n = name.unicode_len();
    if n < 5 {
        return false;
    }
    proof {
        reveal_strlit(".tera");
    }
    let ok = name.get_char(n - 5) == '.' && name.get_char(n - 4) == 't' && name.get_char(n - 3)
        == 'e' && name.get_char(n - 2) == 'r' && name.get_char(n - 1) == 'a';
    proof {
        if ok {
            assert(name@.subrange(n - 5 as int, n as int) =~= ".tera"@);
        } else {
            assert(name@.subrange(n - 5 as int, n as int) != ".tera"@) by {
                if name@.subrange(n - 5 as int, n as int) == ".tera"@ {
                    assert(name@.subrange(n - 5 as int, n as int)[0] == '.');
                    assert(name@.subrange(n - 5 as int, n as int)[1] == 't');
                    assert(name@.subrange(n - 5 as int, n as int)[2] == 'e');
                    assert(name@.subrange(n - 5 as int, n as int)[3] == 'r');
                    assert(name@.subrange(n - 5 as int, n as int)[4] == 'a');
                }
            }
        }
    }
    ok
}

/// The output name of a file: the marker is stripped where present.
pub fn output_name(name: &str) -> (r: String)
    ensures
        r@ == spec_output_name(name@),
{
    let n = name.unicode_len();
    if has_marker(name) {
        name.substring_char(0, n - 5).to_owned()
    } else {
        name.to_owned()
    }
}

/// A node of the packaged template tree: a directory with ordered
/// children, or a file with raw bytes and a parametrized flag.
#[derive(Debug, PartialEq)]
pub enum TemplateNode {
    Dir { name: String, children: Vec<TemplateNode> },
    File { name: String, contents: Vec<u8>, parametrized: bool },
}

impl TemplateNode {
    /// The node's own name.
    pub open spec fn spec_name(self) -> Seq<char> {
        match self {
            TemplateNode::Dir { name, .. } => name@,
            TemplateNode::File { name, .. } => name@,
        }
    }

    /// Well-formedness: every file's parametrized flag agrees with the
    /// marker in its name, recursively through every directory.
    pub open spec fn wf(self) -> bool
        decreases self, 0int,
    {
        match self {
            TemplateNode::File { name, parametrized, .. } => parametrized == spec_has_marker(
                name@,
            ),
            TemplateNode::Dir { children, .. } => seq_wf(children@),
        }
    }

    /// The node's own name.
    pub fn name(&self) -> (r: &String)
        ensures
            r@ == self.spec_name(),
    {
        match self {
            TemplateNode::Dir { name, .. } => name,
            TemplateNode::File { name, .. } => name,
        }
    }

    /// Build a file node; the parametrized flag is derived from the
    /// marker so the two cannot disagree.
    pub fn file(name: String, contents: Vec<u8>) -> (r: TemplateNode)
        ensures
            r == (TemplateNode::File {
                name,
                contents,
                parametrized: spec_has_marker(name@),
            }),
            r.wf(),
    {
        let parametrized = has_marker(name.as_str());
        TemplateNode::File { name, contents, parametrized }
    }

    /// Build a directory node over already well-formed children.
    pub fn dir(name: String, children: Vec<TemplateNode>) -> (r: TemplateNode)
        requires
            seq_wf(children@),
        ensures
            r == (TemplateNode::Dir { name, children }),
            r.wf(),
    {
        TemplateNode::Dir { name, children }
    }
}

/// Well-formedness of a sequence of sibling nodes.
pub open spec fn seq_wf(nodes: Seq<TemplateNode>) -> bool
    decreases nodes, nodes.len(),
{
    if nodes.len() == 0 {
        true
    } else {
        seq_wf(nodes.drop_last()) && nodes.last().wf()
    }
}

/// A sequence of siblings is well formed exactly when each sibling is.
pub proof fn lemma_seq_wf(nodes: Seq<TemplateNode>)
    ensures
        seq_wf(nodes) <==> (forall|i: int| 0 <= i < nodes.len() ==> (#[trigger] nodes[i]).wf()),
    decreases nodes.len(),
{
    if nodes.len() > 0 {
        lemma_seq_wf(nodes.drop_last());
        if seq_wf(nodes.drop_last()) && nodes.last().wf() {
            assert forall|i: int| 0 <= i < nodes.len() implies (#[trigger] nodes[i]).wf() by {
                if i < nodes.len() - 1 {
                    assert(nodes.drop_last()[i] == nodes[i]);
                }
            }
        }
        if forall|i: int| 0 <= i < nodes.len() ==> (#[trigger] nodes[i]).wf() {
            assert forall|i: int| 0 <= i < nodes.drop_last().len() implies (#[trigger] nodes.drop_last()[i]).wf() by {
                assert(nodes.drop_last()[i] == nodes[i]);
            }
        }
    }
}

/// The first sibling with the given name, if any.
pub open spec fn spec_child_named(nodes: Seq<TemplateNode>, name: Seq<char>) -> Option<
    TemplateNode,
>
    decreases nodes.len(),
{
    if nodes.len() == 0 {
        None
    } else if nodes.first().spec_name() == name {
        Some(nodes.first())
    } else {
        spec_child_named(nodes.drop_first(), name)
    }
}

/// Scanning siblings in order may skip a prefix in which the name does
/// not occur.
proof fn lemma_child_named_skip(nodes: Seq<TemplateNode>, name: Seq<char>, j: int)
    requires
        0 <= j <= nodes.len(),
        forall|k: int| 0 <= k < j ==> (#[trigger] nodes[k]).spec_name() != name,
    ensures
        spec_child_named(nodes, name) == spec_child_named(nodes.skip(j), name),
    decreases j,
{
    if j > 0 {
        lemma_child_named_skip(nodes, name, j - 1);
        assert(nodes.skip(j - 1).first() == nodes[j - 1]);
        assert(nodes.skip(j - 1).drop_first() =~= nodes.skip(j));
    } else {
        assert(nodes.skip(0) =~= nodes);
    }
}

/// The first sibling with the given name, if any.
pub fn find_child<'a>(nodes: &'a Vec<TemplateNode>, name: &String) -> (r: Option<
    &'a TemplateNode,
>)
    ensures
        match r {
            Some(c) => spec_child_named(nodes@, name@) == Some(*c),
            None => spec_child_named(nodes@, name@) is None,
        },
{
    let mut i: usize = 0;
    while i < nodes.len()
        invariant
            0 <= i <= nodes@.len(),
            forall|k: int| 0 <= k < i ==> (#[trigger] nodes@[k]).spec_name() != name@,
        decreases nodes@.len() - i,
    {
        if *nodes[i].name() == *name {
            proof {
                lemma_child_named_skip(nodes@, name@, i as int);
                assert(nodes@.skip(i as int).first() == nodes@[i as int]);
            }
            return Some(&nodes[i]);
        }
        i = i + 1;
    }
    proof {
        lemma_child_named_skip(nodes@, name@, nodes@.len() as int);
        assert(nodes@.skip(nodes@.len() as int).len() == 0);
    }
    None
}

/// Walking a key down from a node: each segment selects the child of
/// that name, only directories can be entered, and the result must be a
/// directory.
pub open spec fn spec_descend(node: TemplateNode, key: Seq<Seq<char>>) -> Option<TemplateNode>
    decreases key.len(),
{
    if !(node is Dir) {
        None
    } else if key.len() == 0 {
        Some(node)
    } else {
        match spec_child_named(node->Dir_children@, key.first()) {
            Some(c) => spec_descend(c, key.drop_first()),
            None => None,
        }
    }
}

/// A lookup miss: the key the matrix produced has no directory in the
/// store.
#[derive(Debug, Clone, PartialEq)]
pub enum LookupError {
    TemplateNotFound { key: Vec<String> },
}

/// Copy a key so an error can carry it.
fn copy_key(key: &Vec<String>) -> (r: Vec<String>)
    ensures
        strings_view(r@) == strings_view(key@),
{
    let mut out: Vec<String> = Vec::new();
    let mut i: usize = 0;
    while i < key.len()
        invariant
            0 <= i <= key@.len(),
            out@.len() == i,
            forall|k: int| 0 <= k < i ==> (#[trigger] out@[k])@ == key@[k]@,
        decreases key@.len() - i,
    {
        out.push(key[i].clone());
        i = i + 1;
    }
    proof {
        assert(strings_view(out@) =~= strings_view(key@));
    }
    out
}

/// The read-only template store, built once from packaged content and
/// never mutated for the process lifetime.
#[derive(Debug, PartialEq)]
pub struct TemplateStore {
    pub root: TemplateNode,
}

impl TemplateStore {
    /// Every node of the store is well formed.
    pub open spec fn wf(self) -> bool {
        self.root.wf()
    }

    /// What a lookup of the given key returns.
    pub open spec fn spec_lookup(self, key: Seq<Seq<char>>) -> Option<TemplateNode> {
        spec_descend(self.root, key)
    }

    /// Look up the template directory a key addresses.
    pub fn lookup<'a>(&'a self, key: &Vec<String>) -> (r: Result<&'a TemplateNode, LookupError>)
        ensures
            match r {
                Ok(node) => self.spec_lookup(strings_view(key@)) == Some(*node),
                Err(e) => {
                    &&& self.spec_lookup(strings_view(key@)) is None
                    &&& e matches LookupError::TemplateNotFound { key: k } && strings_view(k@)
                        == strings_view(key@)
                },
            },
    {
        let mut current: &TemplateNode = &self.root;
        let mut i: usize = 0;
        proof {
            assert(strings_view(key@).skip(0) =~= strings_view(key@));
        }
        while i < key.len()
            invariant
                0 <= i <= key@.len(),
                spec_descend(self.root, strings_view(key@)) == spec_descend(
                    *current,
                    strings_view(key@).skip(i as int),
                ),
            decreases key@.len() - i,
        {
            proof {
                assert(strings_view(key@).skip(i as int).first() == key@[i as int]@);
                assert(strings_view(key@).skip(i as int).drop_first() =~= strings_view(key@).skip(
                    i as int + 1,
                ));
            }
            match current {
                TemplateNode::Dir { children, .. } => {
                    match find_child(children, &key[i]) {
                        Some(c) => {
                            current = c;
                        },
                        None => {
                            return Err(
                                LookupError::TemplateNotFound { key: copy_key(key) },
                            );
                        },
                    }
                },
                TemplateNode::File { .. } => {
                    return Err(LookupError::TemplateNotFound { key: copy_key(key) });
                },
            }
            i = i + 1;
        }
        proof {
            assert(strings_view(key@).skip(key@.len() as int).len() == 0);
        }
        match current {
            TemplateNode::Dir { .. } => Ok(current),
            TemplateNode::File { .. } => Err(
                LookupError::TemplateNotFound { key: copy_key(key) },
            ),
        }
    }
}

} // verus!
