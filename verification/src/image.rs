//! The image specification: three mutually exclusive ways of naming a
//! container image — a literal name, a build request, or a value extracted
//! from a structured document — together with name resolution, the decision
//! logic of image acquisition, and the interpretation of the external build,
//! pull and inspect commands.

use crate::doc::node_views;
use crate::doc::parse_documents;
use crate::doc::resolve_path;
use crate::doc::resolve_spec;
use crate::doc::yaml_documents_of;
use crate::errors::FlokiError;
use crate::errors::FlokiSubprocessExitStatus;
use crate::subprocess::ProcessStatus;
use crate::subprocess::SpawnOutcome;
use crate::text::join_path;
use crate::text::join_path_exec;
use crate::text::seq_views;
use vstd::prelude::*;
use vstd::string::StringExecFns;

verus! {

/// A request to build an image from a build description file. The
/// `dockerfile` and `context` paths are kept relative; they are joined onto a
/// caller-supplied root directory at acquisition time.
#[derive(Debug, PartialEq, Eq)]
pub struct BuildSpec {
    pub name: String,
    pub dockerfile: String,
    pub context: String,
    pub target: Option<String>,
}

/// A request to extract an image name from a structured document: the path
/// of the document, and a dot-separated key path into it.
#[derive(Debug, PartialEq, Eq)]
pub struct YamlSpec {
    pub file: String,
    pub key: String,
}

/// An image specification: exactly one of a literal, already-resolvable
/// name, a build-on-demand request, or an extract-from-document request.
#[derive(Debug, PartialEq, Eq)]
pub enum Image {
    Name(String),
    Build { build: BuildSpec },
    Yaml { yaml: YamlSpec },
}

/// The mathematical shape of a build request.
#[verifier::ext_equal]
pub struct BuildSpecView {
    pub name: Seq<char>,
    pub dockerfile: Seq<char>,
    pub context: Seq<char>,
    pub target: Option<Seq<char>>,
}

/// The mathematical shape of an extraction request.
#[verifier::ext_equal]
pub struct YamlSpecView {
    pub file: Seq<char>,
    pub key: Seq<char>,
}

/// The mathematical shape of an image specification.
#[verifier::ext_equal]
pub enum ImageView {
    Name(Seq<char>),
    Build(BuildSpecView),
    Yaml(YamlSpecView),
}

impl View for BuildSpec {
    type V = BuildSpecView;

    open spec fn view(&self) -> BuildSpecView {
        BuildSpecView {
            name: self.name@,
            dockerfile: self.dockerfile@,
            context: self.context@,
            target: match self.target {
                Some(t) => Some(t@),
                None => None,
            },
        }
    }
}

impl View for YamlSpec {
    type V = YamlSpecView;

    open spec fn view(&self) -> YamlSpecView {
        YamlSpecView { file: self.file@, key: self.key@ }
    }
}

impl View for Image {
    type V = ImageView;

    open spec fn view(&self) -> ImageView {
        match self {
            Image::Name(s) => ImageView::Name(s@),
            Image::Build { build } => ImageView::Build(build@),
            Image::Yaml { yaml } => ImageView::Yaml(yaml@),
        }
    }
}

/// The fixed suffix appended to the base name of every image built from
/// source, which makes built images distinguishable from pulled ones of the
/// same base name.
pub open spec fn build_suffix() -> Seq<char> {
    ":floki"@
}

/// The resolved name of an image built from the base name `base`.
pub open spec fn build_image_name(base: Seq<char>) -> Seq<char> {
    base + build_suffix()
}

/// The resolved name of an image specification, given the text of the
/// key-source document (consulted by the `Yaml` variant alone): a literal
/// name stands as it is, a build request is its base name with the fixed
/// suffix, and an extraction request is the scalar at its key path in the
/// first document of the parsed text — `None` where resolution fails.
pub open spec fn name_result_ok(v: ImageView, document: Seq<char>) -> Option<Seq<char>> {
    match v {
        ImageView::Name(s) => Some(s),
        ImageView::Build(b) => Some(build_image_name(b.name)),
        ImageView::Yaml(y) => match yaml_documents_of(document) {
            Some(docs) => if docs.len() > 0 {
                resolve_spec(docs[0], y.key)
            } else {
                None
            },
            None => None,
        },
    }
}

/// The error owed when name resolution fails: a text that does not parse is
/// a malformed document, and everything else — an empty document list, or a
/// key path that does not end at a string scalar — is a failed key lookup.
/// Both errors carry the extraction request's own fields.
pub open spec fn name_error_matches(v: ImageView, document: Seq<char>, e: FlokiError) -> bool {
    match v {
        ImageView::Yaml(y) => if yaml_documents_of(document) is None {
            e matches FlokiError::MalformedDocument { file } && file@ == y.file
        } else {
            e matches FlokiError::FailedToFindYamlKey { key, file } && key@ == y.key && file@
                == y.file
        },
        _ => false,
    }
}

impl Image {
    /// The resolved name of the image. `document` is the text of the
    /// key-source document, read by the caller; only the `Yaml` variant
    /// consults it. Resolution succeeds exactly where `name_result_ok` is
    /// some, and never for any other reason fails.
    pub fn name(&self, document: &str) -> (r: Result<String, FlokiError>)
        ensures
            match r {
                Ok(s) => name_result_ok(self@, document@) == Some(s@),
                Err(e) => name_result_ok(self@, document@) is None && name_error_matches(
                    self@,
                    document@,
                    e,
                ),
            },
    {
        match self {
            Image::Name(s) => Ok(s.clone()),
            Image::Build { build } => {
                let mut r = build.name.clone();
                r.append(":floki");
                Ok(r)
            },
            Image::Yaml { yaml } => match parse_documents(document) {
                None => Err(FlokiError::MalformedDocument { file: yaml.file.clone() }),
                Some(docs) => if docs.len() == 0 {
                    Err(
                        FlokiError::FailedToFindYamlKey {
                            key: yaml.key.clone(),
                            file: yaml.file.clone(),
                        },
                    )
                } else {
                    proof {
                        assert(node_views(docs@)[0] == docs@[0]@);
                    }
                    match resolve_path(&docs[0], yaml.key.as_str()) {
                        Some(s) => Ok(s),
                        None => Err(
                            FlokiError::FailedToFindYamlKey {
                                key: yaml.key.clone(),
                                file: yaml.file.clone(),
                            },
                        ),
                    }
                },
            },
        }
    }
}

/// The external image tool that the invocations this library computes are
/// meant to be run with.
pub fn image_tool() -> (r: String)
    ensures
        r@ == "docker"@,
{
    String::from_str("docker")
}

/// The argument list of the external build invocation for the build request
/// `b`, after the tool's name: `build -t <resolved name> -f <dockerfile
/// joined onto root> [--target <target>] <context joined onto root>`.
pub open spec fn build_args_spec(b: BuildSpecView, root: Seq<char>) -> Seq<Seq<char>> {
    seq!["build"@, "-t"@, build_image_name(b.name), "-f"@, join_path(root, b.dockerfile)] + (
    match b.target {
        Some(t) => seq!["--target"@, t],
        None => Seq::empty(),
    }) + seq![join_path(root, b.context)]
}

/// The external work that obtains an image: either none — the name is
/// already resolved — or one run of the external build tool.
#[derive(Debug, PartialEq, Eq)]
pub enum ObtainStep {
    /// The image needs no external work; this is its resolved name.
    Resolved(String),
    /// Run the external build tool with these arguments, blocking until it
    /// completes, then settle the outcome with `build_completed`.
    RunBuild { image: String, args: Vec<String> },
}

impl Image {
    /// Decide the external work that obtains this image. The `Build` variant
    /// asks for one run of the external build tool, with the relative build
    /// paths joined onto `floki_root`; every other variant resolves to its
    /// name directly, with no external process. `document` is the text of
    /// the key-source document, as in `name`.
    pub fn obtain_image(&self, floki_root: &str, document: &str) -> (r: Result<
        ObtainStep,
        FlokiError,
    >)
        ensures
            match r {
                Ok(step) => match step {
                    ObtainStep::Resolved(s) => !(self@ is Build) && name_result_ok(
                        self@,
                        document@,
                    ) == Some(s@),
                    ObtainStep::RunBuild { image, args } => self@ matches ImageView::Build(b)
                        && image@ == build_image_name(b.name) && seq_views(args@)
                        == build_args_spec(b, floki_root@),
                },
                Err(e) => name_result_ok(self@, document@) is None && name_error_matches(
                    self@,
                    document@,
                    e,
                ),
            },
    {
        match self {
            Image::Build { build } => {
                let mut image = build.name.clone();
                image.append(":floki");
                let mut args: Vec<String> = Vec::new();
                args.push(String::from_str("build"));
                args.push(String::from_str("-t"));
                args.push(image.clone());
                args.push(String::from_str("-f"));
                args.push(join_path_exec(floki_root, build.dockerfile.as_str()));
                match &build.target {
                    Some(t) => {
                        args.push(String::from_str("--target"));
                        args.push(t.clone());
                    },
                    None => {},
                }
                args.push(join_path_exec(floki_root, build.context.as_str()));
                proof {
                    assert(seq_views(args@) =~~= build_args_spec(build@, floki_root@));
                }
                Ok(ObtainStep::RunBuild { image, args })
            },
            _ => match self.name(document) {
                Ok(s) => Ok(ObtainStep::Resolved(s)),
                Err(e) => Err(e),
            },
        }
    }
}

/// Settle a finished external build: a zero exit yields the name of the
/// image that was built, and any other completion is a build failure
/// carrying that name and the full completion status, under the build
/// command's description.
pub fn build_completed(image: String, status: &ProcessStatus) -> (r: Result<String, FlokiError>)
    ensures
        status.is_success() ==> (r matches Ok(s) && s@ == image@),
        !status.is_success() ==> (r matches Err(e) && (e matches FlokiError::FailedToBuildImage {
            image: im,
            exit_status,
        } && im@ == image@ && exit_status.process_description@ == "docker build"@
            && exit_status.process_description@.len() > 0 && exit_status.exit_status == *status)),
{
    if status.success() {
        Ok(image)
    } else {
        proof {
            reveal_strlit("docker build");
        }
        Err(
            FlokiError::FailedToBuildImage {
                image,
                exit_status: FlokiSubprocessExitStatus {
                    process_description: String::from_str("docker build"),
                    exit_status: *status,
                },
            },
        )
    }
}

/// The argument list of the external pull invocation for `name`, after the
/// tool's name: `pull <name>`.
pub open spec fn pull_args_spec(name: Seq<char>) -> Seq<Seq<char>> {
    seq!["pull"@, name]
}

/// The arguments of the external pull invocation for `name`.
pub fn pull_args(name: &str) -> (r: Vec<String>)
    ensures
        seq_views(r@) == pull_args_spec(name@),
{
    let mut args: Vec<String> = Vec::new();
    args.push(String::from_str("pull"));
    args.push(name.to_owned());
    proof {
        assert(seq_views(args@) =~~= pull_args_spec(name@));
    }
    args
}

/// Settle a finished external pull of the image `name`: a zero exit is
/// success, and any other completion is a pull failure carrying the name and
/// the full completion status, under the pull command's description.
pub fn pull_image(name: &str, status: &ProcessStatus) -> (r: Result<(), FlokiError>)
    ensures
        status.is_success() <==> r is Ok,
        !status.is_success() ==> (r matches Err(e) && (e matches FlokiError::FailedToPullImage {
            image,
            exit_status,
        } && image@ == name@ && exit_status.process_description@ == "docker pull"@
            && exit_status.process_description@.len() > 0 && exit_status.exit_status == *status)),
{
    if status.success() {
        Ok(())
    } else {
        proof {
            reveal_strlit("docker pull");
        }
        Err(
            FlokiError::FailedToPullImage {
                image: name.to_owned(),
                exit_status: FlokiSubprocessExitStatus {
                    process_description: String::from_str("docker pull"),
                    exit_status: *status,
                },
            },
        )
    }
}

/// The argument list of the external inspect invocation for `name`, after
/// the tool's name: `history <name>`. The invocation is meant to run with
/// all standard streams suppressed; only its exit code is consulted.
pub open spec fn history_args_spec(name: Seq<char>) -> Seq<Seq<char>> {
    seq!["history"@, name]
}

/// The arguments of the external inspect invocation for `name`.
pub fn history_args(name: &str) -> (r: Vec<String>)
    ensures
        seq_views(r@) == history_args_spec(name@),
{
    let mut args: Vec<String> = Vec::new();
    args.push(String::from_str("history"));
    args.push(name.to_owned());
    proof {
        assert(seq_views(args@) =~~= history_args_spec(name@));
    }
    args
}

/// Whether the image `name` exists locally, read off the inspect
/// invocation's outcome: exit code zero means it exists, any other
/// completion means it does not, and a failure to even launch the inspection
/// process is an error of its own — never conflated with a plain `false`.
pub fn image_exists_locally(name: &str, outcome: &SpawnOutcome) -> (r: Result<bool, FlokiError>)
    ensures
        match outcome {
            SpawnOutcome::Completed(st) => r matches Ok(b) && b == st.is_success(),
            SpawnOutcome::LaunchFailed(err) => r matches Err(e) && (e
                matches FlokiError::FailedToCheckForImage { image, error } && image@ == name@
                && error@ == err@),
        },
{
    match outcome {
        SpawnOutcome::Completed(st) => Ok(st.success()),
        SpawnOutcome::LaunchFailed(err) => Err(
            FlokiError::FailedToCheckForImage { image: name.to_owned(), error: err.clone() },
        ),
    }
}

/// Name resolution is a function of the specification value and the document
/// text alone: two resolutions of the same value over the same text yield
/// the same string, so repeated calls are idempotent.
pub proof fn lemma_name_deterministic(
    v: ImageView,
    document: Seq<char>,
    r1: Seq<char>,
    r2: Seq<char>,
)
    requires
        name_result_ok(v, document) == Some(r1),
        name_result_ok(v, document) == Some(r2),
    ensures
        r1 == r2,
{
}

} // verus!
