//! Shape-based decoding of an image specification from a structured
//! configuration value, and its inverse. The configuration carries no
//! explicit tag: the variants are tried in a fixed order — a bare string is a
//! literal name, then a mapping whose `build` entry decodes is a build
//! request, then a mapping whose `yaml` entry decodes is an extraction
//! request — and decoding fails only if none match.

use crate::doc::DocNode;
use crate::doc::NodeView;
use crate::doc::entry_views;
use crate::doc::mapping_get;
use crate::doc::mapping_get_exec;
use crate::image::BuildSpec;
use crate::image::BuildSpecView;
use crate::image::Image;
use crate::image::ImageView;
use crate::image::YamlSpec;
use crate::image::YamlSpecView;
use vstd::prelude::*;
use vstd::string::StringExecFns;

verus! {

/// The string under `key` in a mapping, with `dflt` standing in where the
/// key is absent; a present entry that is not a string scalar is a failure.
pub open spec fn scalar_field_or(
    entries: Seq<(Option<Seq<char>>, NodeView)>,
    key: Seq<char>,
    dflt: Seq<char>,
) -> Option<Seq<char>> {
    match mapping_get(entries, key) {
        None => Some(dflt),
        Some(NodeView::Scalar(s)) => Some(s),
        Some(_) => None,
    }
}

/// The optional string under `key` in a mapping; a present entry that is not
/// a string scalar is a failure.
pub open spec fn opt_scalar_field(
    entries: Seq<(Option<Seq<char>>, NodeView)>,
    key: Seq<char>,
) -> Option<Option<Seq<char>>> {
    match mapping_get(entries, key) {
        None => Some(None),
        Some(NodeView::Scalar(s)) => Some(Some(s)),
        Some(_) => None,
    }
}

/// A build request decoded from a mapping: `name` is required, `dockerfile`
/// defaults to `Dockerfile`, `context` defaults to `.`, and `target` is
/// optional. Entries under other keys are ignored.
pub open spec fn decode_build_spec(n: NodeView) -> Option<BuildSpecView> {
    match n {
        NodeView::Mapping(entries) => match (
            mapping_get(entries, "name"@),
            scalar_field_or(entries, "dockerfile"@, "Dockerfile"@),
            scalar_field_or(entries, "context"@, "."@),
            opt_scalar_field(entries, "target"@),
        ) {
            (Some(NodeView::Scalar(nm)), Some(df), Some(cx), Some(tg)) => Some(
                BuildSpecView { name: nm, dockerfile: df, context: cx, target: tg },
            ),
            _ => None,
        },
        _ => None,
    }
}

/// An extraction request decoded from a mapping: `file` and `key` are both
/// required strings. Entries under other keys are ignored.
pub open spec fn decode_yaml_spec(n: NodeView) -> Option<YamlSpecView> {
    match n {
        NodeView::Mapping(entries) => match (
            mapping_get(entries, "file"@),
            mapping_get(entries, "key"@),
        ) {
            (Some(NodeView::Scalar(f)), Some(NodeView::Scalar(k))) => Some(
                YamlSpecView { file: f, key: k },
            ),
            _ => None,
        },
        _ => None,
    }
}

/// An image specification decoded from a configuration value, each variant
/// tried in the fixed order the module's doc comment gives.
pub open spec fn decode_image(n: NodeView) -> Option<ImageView> {
    match n {
        NodeView::Scalar(s) => Some(ImageView::Name(s)),
        NodeView::Mapping(entries) => {
            let from_build = match mapping_get(entries, "build"@) {
                Some(b) => match decode_build_spec(b) {
                    Some(bs) => Some(ImageView::Build(bs)),
                    None => None,
                },
                None => None,
            };
            let from_yaml = match mapping_get(entries, "yaml"@) {
                Some(y) => match decode_yaml_spec(y) {
                    Some(ys) => Some(ImageView::Yaml(ys)),
                    None => None,
                },
                None => None,
            };
            if from_build is Some {
                from_build
            } else {
                from_yaml
            }
        },
        _ => None,
    }
}

/// The mapping entries a build request serializes to: the three plain fields
/// in a fixed order, then the target stage where there is one.
pub open spec fn encode_build_entries(b: BuildSpecView) -> Seq<(Option<Seq<char>>, NodeView)> {
    seq![
        (Some("name"@), NodeView::Scalar(b.name)),
        (Some("dockerfile"@), NodeView::Scalar(b.dockerfile)),
        (Some("context"@), NodeView::Scalar(b.context)),
    ] + (match b.target {
        Some(t) => seq![(Some("target"@), NodeView::Scalar(t))],
        None => Seq::empty(),
    })
}

/// The mapping entries an extraction request serializes to.
pub open spec fn encode_yaml_entries(y: YamlSpecView) -> Seq<(Option<Seq<char>>, NodeView)> {
    seq![(Some("file"@), NodeView::Scalar(y.file)), (Some("key"@), NodeView::Scalar(y.key))]
}

/// The configuration value an image specification serializes to: the shape
/// that decodes back to the same value.
pub open spec fn encode_image(v: ImageView) -> NodeView {
    match v {
        ImageView::Name(s) => NodeView::Scalar(s),
        ImageView::Build(b) => NodeView::Mapping(
            seq![(Some("build"@), NodeView::Mapping(encode_build_entries(b)))],
        ),
        ImageView::Yaml(y) => NodeView::Mapping(
            seq![(Some("yaml"@), NodeView::Mapping(encode_yaml_entries(y)))],
        ),
    }
}

/// The default build description file of a build request.
fn default_dockerfile() -> (r: String)
    ensures
        r@ == "Dockerfile"@,
{
    String::from_str("Dockerfile")
}

/// The default build context directory of a build request.
fn default_context() -> (r: String)
    ensures
        r@ == "."@,
{
    String::from_str(".")
}

impl BuildSpec {
    /// Decode a build request from a configuration value, exactly as
    /// `decode_build_spec` describes.
    pub fn from_doc(node: &DocNode) -> (r: Option<BuildSpec>)
        ensures
            match r {
                Some(b) => decode_build_spec(node@) == Some(b@),
                None => decode_build_spec(node@) is None,
            },
    {
        match node {
            DocNode::Mapping(entries) => {
                proof {
                    match node@ {
                        NodeView::Mapping(views) => {
                            assert(views =~= entry_views(entries@));
                        },
                        _ => {},
                    }
                }
                let name = match mapping_get_exec(entries, "name") {
                    Some(DocNode::Scalar(s)) => s.clone(),
                    Some(_) => {
                        return None;
                    },
                    None => {
                        return None;
                    },
                };
                let dockerfile = match mapping_get_exec(entries, "dockerfile") {
                    Some(DocNode::Scalar(s)) => s.clone(),
                    Some(_) => {
                        return None;
                    },
                    None => default_dockerfile(),
                };
                let context = match mapping_get_exec(entries, "context") {
                    Some(DocNode::Scalar(s)) => s.clone(),
                    Some(_) => {
                        return None;
                    },
                    None => default_context(),
                };
                let target = match mapping_get_exec(entries, "target") {
                    Some(DocNode::Scalar(s)) => Some(s.clone()),
                    Some(_) => {
                        return None;
                    },
                    None => None,
                };
                Some(BuildSpec { name, dockerfile, context, target })
            },
            _ => None,
        }
    }

    /// Serialize this build request, exactly as `encode_build_entries`
    /// describes.
    pub fn to_doc(&self) -> (r: DocNode)
        ensures
            r@ == NodeView::Mapping(encode_build_entries(self@)),
    {
        let mut entries: Vec<(Option<String>, DocNode)> = Vec::new();
        entries.push((Some(String::from_str("name")), DocNode::Scalar(self.name.clone())));
        entries.push(
            (Some(String::from_str("dockerfile")), DocNode::Scalar(self.dockerfile.clone())),
        );
        entries.push((Some(String::from_str("context")), DocNode::Scalar(self.context.clone())));
        match &self.target {
            Some(t) => entries.push(
                (Some(String::from_str("target")), DocNode::Scalar(t.clone())),
            ),
            None => {},
        }
        let r = DocNode::Mapping(entries);
        proof {
            let es = encode_build_entries(self@);
            match r@ {
                NodeView::Mapping(vs) => {
                    assert(vs.len() == es.len());
                    assert(entries@[0].1@ == NodeView::Scalar(self@.name));
                    assert(vs[0] == es[0]);
                    assert(entries@[1].1@ == NodeView::Scalar(self@.dockerfile));
                    assert(vs[1] == es[1]);
                    assert(entries@[2].1@ == NodeView::Scalar(self@.context));
                    assert(vs[2] == es[2]);
                    match &self.target {
                        Some(t) => {
                            assert(entries@[3].1@ == NodeView::Scalar(t@));
                            assert(vs[3] == es[3]);
                        },
                        None => {},
                    }
                    assert(vs =~~= es);
                },
                _ => {},
            }
            assert(r@ =~~= NodeView::Mapping(encode_build_entries(self@)));
        }
        r
    }
}

impl YamlSpec {
    /// Decode an extraction request from a configuration value, exactly as
    /// `decode_yaml_spec` describes.
    pub fn from_doc(node: &DocNode) -> (r: Option<YamlSpec>)
        ensures
            match r {
                Some(y) => decode_yaml_spec(node@) == Some(y@),
                None => decode_yaml_spec(node@) is None,
            },
    {
        match node {
            DocNode::Mapping(entries) => {
                proof {
                    match node@ {
                        NodeView::Mapping(views) => {
                            assert(views =~= entry_views(entries@));
                        },
                        _ => {},
                    }
                }
                let file = match mapping_get_exec(entries, "file") {
                    Some(DocNode::Scalar(s)) => s.clone(),
                    _ => {
                        return None;
                    },
                };
                let key = match mapping_get_exec(entries, "key") {
                    Some(DocNode::Scalar(s)) => s.clone(),
                    _ => {
                        return None;
                    },
                };
                Some(YamlSpec { file, key })
            },
            _ => None,
        }
    }

    /// Serialize this extraction request, exactly as `encode_yaml_entries`
    /// describes.
    pub fn to_doc(&self) -> (r: DocNode)
        ensures
            r@ == NodeView::Mapping(encode_yaml_entries(self@)),
    {
        let mut entries: Vec<(Option<String>, DocNode)> = Vec::new();
        entries.push((Some(String::from_str("file")), DocNode::Scalar(self.file.clone())));
        entries.push((Some(String::from_str("key")), DocNode::Scalar(self.key.clone())));
        let r = DocNode::Mapping(entries);
        proof {
            let es = encode_yaml_entries(self@);
            match r@ {
                NodeView::Mapping(vs) => {
                    assert(entries@[0].1@ == NodeView::Scalar(self@.file));
                    assert(vs[0] == es[0]);
                    assert(entries@[1].1@ == NodeView::Scalar(self@.key));
                    assert(vs[1] == es[1]);
                    assert(vs =~~= es);
                },
                _ => {},
            }
            assert(r@ =~~= NodeView::Mapping(encode_yaml_entries(self@)));
        }
        r
    }
}

impl Image {
    /// Decode an image specification from a configuration value, exactly as
    /// `decode_image` describes.
    pub fn from_doc(node: &DocNode) -> (r: Option<Image>)
        ensures
            match r {
                Some(img) => decode_image(node@) == Some(img@),
                None => decode_image(node@) is None,
            },
    {
        match node {
            DocNode::Scalar(s) => Some(Image::Name(s.clone())),
            DocNode::Mapping(entries) => {
                proof {
                    match node@ {
                        NodeView::Mapping(views) => {
                            assert(views =~= entry_views(entries@));
                        },
                        _ => {},
                    }
                }
                match mapping_get_exec(entries, "build") {
                    Some(b) => match BuildSpec::from_doc(b) {
                        Some(bs) => {
                            return Some(Image::Build { build: bs });
                        },
                        None => {},
                    },
                    None => {},
                }
                match mapping_get_exec(entries, "yaml") {
                    Some(y) => match YamlSpec::from_doc(y) {
                        Some(ys) => {
                            return Some(Image::Yaml { yaml: ys });
                        },
                        None => {},
                    },
                    None => {},
                }
                None
            },
            _ => None,
        }
    }

    /// Serialize this image specification, exactly as `encode_image`
    /// describes.
    pub fn to_doc(&self) -> (r: DocNode)
        ensures
            r@ == encode_image(self@),
    {
        match self {
            Image::Name(s) => DocNode::Scalar(s.clone()),
            Image::Build { build } => {
                let mut entries: Vec<(Option<String>, DocNode)> = Vec::new();
                entries.push((Some(String::from_str("build")), build.to_doc()));
                let r = DocNode::Mapping(entries);
                proof {
                    match r@ {
                        NodeView::Mapping(vs) => {
                            assert(entries@[0].1@ == NodeView::Mapping(
                                encode_build_entries(build@),
                            ));
                            assert(vs[0] == (
                                Some("build"@),
                                NodeView::Mapping(encode_build_entries(build@)),
                            ));
                            assert(vs =~~= encode_image(self@)->Mapping_0);
                        },
                        _ => {},
                    }
                    assert(r@ =~~= encode_image(self@));
                }
                r
            },
            Image::Yaml { yaml } => {
                let mut entries: Vec<(Option<String>, DocNode)> = Vec::new();
                entries.push((Some(String::from_str("yaml")), yaml.to_doc()));
                let r = DocNode::Mapping(entries);
                proof {
                    match r@ {
                        NodeView::Mapping(vs) => {
                            assert(entries@[0].1@ == NodeView::Mapping(
                                encode_yaml_entries(yaml@),
                            ));
                            assert(vs[0] == (
                                Some("yaml"@),
                                NodeView::Mapping(encode_yaml_entries(yaml@)),
                            ));
                            assert(vs =~~= encode_image(self@)->Mapping_0);
                        },
                        _ => {},
                    }
                    assert(r@ =~~= encode_image(self@));
                }
                r
            },
        }
    }
}

/// A bare string configuration value always decodes to the literal-name
/// variant holding that exact string.
pub proof fn lemma_decode_bare_string(s: Seq<char>)
    ensures
        decode_image(NodeView::Scalar(s)) == Some(ImageView::Name(s)),
{
}

/// Where the entries of a serialized build request lead each field lookup.
proof fn lemma_build_entries_lookups(b: BuildSpecView)
    ensures
        mapping_get(encode_build_entries(b), "name"@) == Some(NodeView::Scalar(b.name)),
        mapping_get(encode_build_entries(b), "dockerfile"@) == Some(
            NodeView::Scalar(b.dockerfile),
        ),
        mapping_get(encode_build_entries(b), "context"@) == Some(NodeView::Scalar(b.context)),
        opt_scalar_field(encode_build_entries(b), "target"@) == Some(b.target),
{
    reveal_strlit("name");
    reveal_strlit("dockerfile");
    reveal_strlit("context");
    reveal_strlit("target");
    assert("name"@.len() == 4);
    assert("dockerfile"@.len() == 10);
    assert("context"@.len() == 7);
    assert("target"@.len() == 6);
    let es = encode_build_entries(b);
    let s1 = es.skip(1);
    let s2 = s1.skip(1);
    let s3 = s2.skip(1);
    assert(es[0] == (Some("name"@), NodeView::Scalar(b.name)));
    assert(es[1] == (Some("dockerfile"@), NodeView::Scalar(b.dockerfile)));
    assert(es[2] == (Some("context"@), NodeView::Scalar(b.context)));
    assert(s1[0] == es[1]);
    assert(s2[0] == es[2]);
    assert(mapping_get(es, "name"@) == Some(NodeView::Scalar(b.name)));
    assert(mapping_get(es, "dockerfile"@) == mapping_get(s1, "dockerfile"@));
    assert(mapping_get(s1, "dockerfile"@) == Some(NodeView::Scalar(b.dockerfile)));
    assert(mapping_get(es, "context"@) == mapping_get(s1, "context"@));
    assert(mapping_get(s1, "context"@) == mapping_get(s2, "context"@));
    assert(mapping_get(s2, "context"@) == Some(NodeView::Scalar(b.context)));
    assert(mapping_get(es, "target"@) == mapping_get(s1, "target"@));
    assert(mapping_get(s1, "target"@) == mapping_get(s2, "target"@));
    assert(mapping_get(s2, "target"@) == mapping_get(s3, "target"@));
    match b.target {
        Some(t) => {
            assert(es[3] == (Some("target"@), NodeView::Scalar(t)));
            assert(s3[0] == es[3]);
            assert(mapping_get(s3, "target"@) == Some(NodeView::Scalar(t)));
        },
        None => {
            assert(s3 =~= Seq::<(Option<Seq<char>>, NodeView)>::empty());
            assert(mapping_get(s3, "target"@) is None);
        },
    }
}

/// Serializing any image specification and decoding the result yields the
/// same value: decoding, in its fixed variant order, inverts `encode_image`
/// on every value.
pub proof fn lemma_image_round_trip(v: ImageView)
    ensures
        decode_image(encode_image(v)) == Some(v),
{
    reveal_strlit("build");
    reveal_strlit("yaml");
    reveal_strlit("file");
    reveal_strlit("key");
    assert("build"@.len() == 5);
    assert("yaml"@.len() == 4);
    assert("file"@.len() == 4);
    assert("key"@.len() == 3);
    match v {
        ImageView::Name(s) => {},
        ImageView::Build(b) => {
            let es = encode_build_entries(b);
            let inner = NodeView::Mapping(es);
            let outer = seq![(Some("build"@), inner)];
            assert(encode_image(v) == NodeView::Mapping(outer));
            assert(mapping_get(outer, "build"@) == Some(inner));
            lemma_build_entries_lookups(b);
            assert(decode_build_spec(inner) == Some(b));
            assert(decode_image(encode_image(v)) == Some(ImageView::Build(b)));
        },
        ImageView::Yaml(y) => {
            let es = encode_yaml_entries(y);
            let inner = NodeView::Mapping(es);
            let outer = seq![(Some("yaml"@), inner)];
            assert(encode_image(v) == NodeView::Mapping(outer));
            assert(outer.skip(1) =~= Seq::<(Option<Seq<char>>, NodeView)>::empty());
            assert(mapping_get(outer, "build"@) == mapping_get(outer.skip(1), "build"@));
            assert(mapping_get(outer, "build"@) is None);
            assert(mapping_get(outer, "yaml"@) == Some(inner));
            let s1 = es.skip(1);
            assert(es[0] == (Some("file"@), NodeView::Scalar(y.file)));
            assert(es[1] == (Some("key"@), NodeView::Scalar(y.key)));
            assert(s1[0] == es[1]);
            assert(mapping_get(es, "file"@) == Some(NodeView::Scalar(y.file)));
            assert(mapping_get(es, "key"@) == mapping_get(s1, "key"@));
            assert(mapping_get(s1, "key"@) == Some(NodeView::Scalar(y.key)));
            assert(decode_yaml_spec(inner) == Some(y));
            assert(decode_image(encode_image(v)) == Some(ImageView::Yaml(y)));
        },
    }
}

/// A build mapping that gives `name` alone decodes with `dockerfile` and
/// `context` defaulted to `Dockerfile` and `.`, and no target stage.
pub proof fn lemma_decode_build_defaults(n: Seq<char>)
    ensures
        decode_image(
            NodeView::Mapping(
                seq![
                    (
                        Some("build"@),
                        NodeView::Mapping(seq![(Some("name"@), NodeView::Scalar(n))]),
                    ),
                ],
            ),
        ) == Some(
            ImageView::Build(
                BuildSpecView {
                    name: n,
                    dockerfile: "Dockerfile"@,
                    context: "."@,
                    target: None,
                },
            ),
        ),
{
    reveal_strlit("build");
    reveal_strlit("name");
    reveal_strlit("dockerfile");
    reveal_strlit("context");
    reveal_strlit("target");
    assert("build"@.len() == 5);
    assert("name"@.len() == 4);
    assert("dockerfile"@.len() == 10);
    assert("context"@.len() == 7);
    assert("target"@.len() == 6);
    let es = seq![(Some("name"@), NodeView::Scalar(n))];
    let inner = NodeView::Mapping(es);
    let outer = seq![(Some("build"@), inner)];
    assert(mapping_get(outer, "build"@) == Some(inner));
    let s1 = es.skip(1);
    assert(s1 =~= Seq::<(Option<Seq<char>>, NodeView)>::empty());
    assert(mapping_get(es, "name"@) == Some(NodeView::Scalar(n)));
    assert(mapping_get(es, "dockerfile"@) == mapping_get(s1, "dockerfile"@));
    assert(mapping_get(es, "dockerfile"@) is None);
    assert(mapping_get(es, "context"@) == mapping_get(s1, "context"@));
    assert(mapping_get(es, "context"@) is None);
    assert(mapping_get(es, "target"@) == mapping_get(s1, "target"@));
    assert(mapping_get(es, "target"@) is None);
    assert(decode_build_spec(inner) == Some(
        BuildSpecView { name: n, dockerfile: "Dockerfile"@, context: "."@, target: None },
    ));
}

} // verus!
