//! A structured (YAML-like) document modelled as plain values, and the
//! resolver that walks such a document by a dot-separated key path: each
//! numeric-looking segment indexes the current node as a sequence, and every
//! other segment is a string key into a mapping; the walk ends at a string
//! scalar or fails on the first segment that does not apply.

use crate::text::parse_index;
use crate::text::segment_index;
use crate::text::seq_views;
use crate::text::split_dots;
use crate::text::split_dots_exec;
use vstd::prelude::*;

verus! {

/// A node of a structured document, holding as plain values exactly what
/// path resolution reads: string scalars, sequences, mappings, and every
/// other kind of value as `Other`.
#[derive(Debug, PartialEq, Eq)]
pub enum DocNode {
    /// A string scalar.
    Scalar(String),
    /// A sequence of nodes.
    Sequence(Vec<DocNode>),
    /// A mapping in document order. A key of `None` stands for a key that is
    /// not a string scalar, which no dot-path segment can name.
    Mapping(Vec<(Option<String>, DocNode)>),
    /// A scalar that is not a string: a number, boolean, null, and the like.
    Other,
}

/// The mathematical shape of a document node.
#[verifier::ext_equal]
pub enum NodeView {
    Scalar(Seq<char>),
    Sequence(Seq<NodeView>),
    Mapping(Seq<(Option<Seq<char>>, NodeView)>),
    Other,
}

/// The view of a document node, one layer at a time.
pub open spec fn node_view(n: DocNode) -> NodeView
    decreases n,
    via node_view_decreases
{
    match n {
        DocNode::Scalar(s) => NodeView::Scalar(s@),
        DocNode::Sequence(items) => NodeView::Sequence(
            Seq::new(
                items.len() as nat,
                |i: int|
                    if 0 <= i < items.len() {
                        node_view(items[i])
                    } else {
                        NodeView::Other
                    },
            ),
        ),
        DocNode::Mapping(entries) => NodeView::Mapping(
            Seq::new(
                entries.len() as nat,
                |i: int|
                    if 0 <= i < entries.len() {
                        (
                            match entries[i].0 {
                                Some(k) => Some(k@),
                                None => None,
                            },
                            node_view(entries[i].1),
                        )
                    } else {
                        (None, NodeView::Other)
                    },
            ),
        ),
        DocNode::Other => NodeView::Other,
    }
}

#[via_fn]
proof fn node_view_decreases(n: DocNode) {
    broadcast use vstd::std_specs::vec::group_vec_axioms;

}

impl View for DocNode {
    type V = NodeView;

    open spec fn view(&self) -> NodeView {
        node_view(*self)
    }
}

/// The views of a sequence of document nodes.
pub open spec fn node_views(docs: Seq<DocNode>) -> Seq<NodeView> {
    docs.map_values(|n: DocNode| n@)
}

#[verifier::external_type_specification]
#[verifier::external_body]
pub struct ExYaml(yaml_rust::Yaml);

/// What `yaml_rust::YamlLoader::load_from_str` yields on given text, seen as
/// document nodes: the parsed documents, or `None` on a scan error. The
/// result is a function of the text alone.
pub uninterp spec fn yaml_documents_of(source: Seq<char>) -> Option<Seq<NodeView>>;

/// Relies on the shape of yaml_rust::Yaml: a mapping key keeps its text when
/// it is a string scalar, and any other key is carried as a non-string key.
#[verifier::external_body]
fn yaml_key(k: yaml_rust::Yaml) -> Option<String> {
    match k {
        yaml_rust::Yaml::String(s) => Some(s),
        _ => None,
    }
}

/// Relies on the shape of yaml_rust::Yaml, one arm per variant: a string
/// scalar keeps its text, arrays and hashes keep their entries in document
/// order, and every other variant is a value no path can descend into.
#[verifier::external_body]
fn yaml_to_node(y: yaml_rust::Yaml) -> DocNode {
    match y {
        yaml_rust::Yaml::String(s) => DocNode::Scalar(s),
        yaml_rust::Yaml::Array(items) => DocNode::Sequence(
            items.into_iter().map(yaml_to_node).collect(),
        ),
        yaml_rust::Yaml::Hash(entries) => DocNode::Mapping(
            entries.into_iter().map(|(k, v)| (yaml_key(k), yaml_to_node(v))).collect(),
        ),
        _ => DocNode::Other,
    }
}

/// Relies on yaml_rust::YamlLoader::load_from_str: parses the text into its
/// documents, a pure function of the text; a scan error yields `None`.
#[verifier::external_body]
fn load_documents(source: &str) -> (r: Option<Vec<DocNode>>)
    ensures
        match r {
            Some(docs) => yaml_documents_of(source@) == Some(node_views(docs@)),
            None => yaml_documents_of(source@) is None,
        },
{
    match yaml_rust::YamlLoader::load_from_str(source) {
        Ok(docs) => Some(docs.into_iter().map(yaml_to_node).collect()),
        Err(_) => None,
    }
}

/// Parse the text of a structured document into its list of documents;
/// `None` when the text cannot be parsed.
pub fn parse_documents(source: &str) -> (r: Option<Vec<DocNode>>)
    ensures
        match r {
            Some(docs) => yaml_documents_of(source@) == Some(node_views(docs@)),
            None => yaml_documents_of(source@) is None,
        },
{
    load_documents(source)
}

/// The value under `key` in a mapping: the first entry with that string key
/// wins.
pub open spec fn mapping_get(
    entries: Seq<(Option<Seq<char>>, NodeView)>,
    key: Seq<char>,
) -> Option<NodeView>
    decreases entries.len(),
{
    if entries.len() == 0 {
        None
    } else if entries[0].0 == Some(key) {
        Some(entries[0].1)
    } else {
        mapping_get(entries.skip(1), key)
    }
}

/// One step of path resolution. A segment that reads as a non-negative
/// integer always indexes the node as a sequence — never as a mapping key,
/// even where a mapping has a key of that spelling; any other segment is a
/// string key into a mapping. Everything else fails.
pub open spec fn lookup_step(n: NodeView, seg: Seq<char>) -> Option<NodeView> {
    match segment_index(seg) {
        Some(i) => match n {
            NodeView::Sequence(items) => if i < items.len() {
                Some(items[i as int])
            } else {
                None
            },
            _ => None,
        },
        None => match n {
            NodeView::Mapping(entries) => mapping_get(entries, seg),
            _ => None,
        },
    }
}

/// The node reached from `n` by the path `segs`, one step per segment.
pub open spec fn lookup_path(n: NodeView, segs: Seq<Seq<char>>) -> Option<NodeView>
    decreases segs.len(),
{
    if segs.len() == 0 {
        Some(n)
    } else {
        match lookup_step(n, segs[0]) {
            Some(m) => lookup_path(m, segs.skip(1)),
            None => None,
        }
    }
}

/// The scalar at the dot-separated path `key` in `doc`: the whole path must
/// resolve, and the terminal node must be a string scalar.
pub open spec fn resolve_spec(doc: NodeView, key: Seq<char>) -> Option<Seq<char>> {
    match lookup_path(doc, split_dots(key)) {
        Some(NodeView::Scalar(s)) => Some(s),
        _ => None,
    }
}

/// The value under `seg` in a mapping's entries, as `mapping_get` describes.
pub(crate) fn mapping_get_exec<'a>(entries: &'a Vec<(Option<String>, DocNode)>, seg: &str) -> (r: Option<
    &'a DocNode,
>)
    ensures
        match r {
            Some(m) => mapping_get(entry_views(entries@), seg@) == Some(m@),
            None => mapping_get(entry_views(entries@), seg@) is None,
        },
{
    let ghost ev = entry_views(entries@);
    let seg_owned = seg.to_owned();
    let mut j: usize = 0;
    proof {
        assert(ev.skip(0) =~= ev);
    }
    while j < entries.len()
        invariant
            j <= entries.len(),
            ev == entry_views(entries@),
            ev.len() == entries@.len(),
            seg_owned@ == seg@,
            mapping_get(ev, seg@) == mapping_get(ev.skip(j as int), seg@),
        decreases entries.len() - j,
    {
        proof {
            assert(ev.skip(j as int)[0] == ev[j as int]);
            assert(ev.skip(j as int).skip(1) =~= ev.skip(j + 1));
        }
        let hit = match &entries[j].0 {
            Some(k) => *k == seg_owned,
            None => false,
        };
        if hit {
            return Some(&entries[j].1);
        }
        j += 1;
    }
    proof {
        assert(ev.skip(entries@.len() as int) =~= Seq::<(Option<Seq<char>>, NodeView)>::empty());
    }
    None
}

/// The views of a mapping's entries.
pub open spec fn entry_views(entries: Seq<(Option<String>, DocNode)>) -> Seq<
    (Option<Seq<char>>, NodeView),
> {
    Seq::new(
        entries.len(),
        |i: int|
            (
                match entries[i].0 {
                    Some(k) => Some(k@),
                    None => None,
                },
                entries[i].1@,
            ),
    )
}

/// One step of path resolution, as `lookup_step` describes.
fn lookup_step_exec<'a>(n: &'a DocNode, seg: &str) -> (r: Option<&'a DocNode>)
    ensures
        match r {
            Some(m) => lookup_step(n@, seg@) == Some(m@),
            None => lookup_step(n@, seg@) is None,
        },
{
    match parse_index(seg) {
        Some(i) => match n {
            DocNode::Sequence(items) => if i < items.len() {
                proof {
                    match n@ {
                        NodeView::Sequence(views) => {
                            assert(views[i as int] == items[i as int]@);
                        },
                        _ => {},
                    }
                }
                Some(&items[i])
            } else {
                None
            },
            _ => None,
        },
        None => match n {
            DocNode::Mapping(entries) => {
                proof {
                    match n@ {
                        NodeView::Mapping(views) => {
                            assert(views =~= entry_views(entries@));
                        },
                        _ => {},
                    }
                }
                mapping_get_exec(entries, seg)
            },
            _ => None,
        },
    }
}

/// Resolve the dot-separated path `key` in `doc` to a string scalar, exactly
/// as `resolve_spec` describes. A path through an absent key, an index out of
/// range, a node of the wrong kind, or ending at anything but a string scalar
/// resolves to `None`.
pub fn resolve_path(doc: &DocNode, key: &str) -> (r: Option<String>)
    ensures
        match r {
            Some(s) => resolve_spec(doc@, key@) == Some(s@),
            None => resolve_spec(doc@, key@) is None,
        },
{
    let segs = split_dots_exec(key);
    let ghost all = seq_views(segs@);
    let mut cur: &DocNode = doc;
    let mut idx: usize = 0;
    proof {
        assert(all.skip(0) =~= all);
    }
    while idx < segs.len()
        invariant
            idx <= segs.len(),
            all == split_dots(key@),
            all == seq_views(segs@),
            all.len() == segs@.len(),
            lookup_path(doc@, all) == lookup_path(cur@, all.skip(idx as int)),
        decreases segs.len() - idx,
    {
        proof {
            assert(all.skip(idx as int)[0] == all[idx as int]);
            assert(all.skip(idx as int).skip(1) =~= all.skip(idx + 1));
        }
        match lookup_step_exec(cur, segs[idx].as_str()) {
            Some(next) => {
                cur = next;
            },
            None => {
                return None;
            },
        }
        idx += 1;
    }
    proof {
        assert(all.skip(segs@.len() as int) =~= Seq::<Seq<char>>::empty());
    }
    match cur {
        DocNode::Scalar(s) => Some(s.clone()),
        _ => None,
    }
}

} // verus!
