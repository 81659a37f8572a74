//! Resolution of a declarative image configuration into a concrete container
//! image name, together with the decision logic around the external build,
//! pull and inspect commands that acquire such an image.

use vstd::prelude::*;

mod codec;
mod doc;
mod errors;
mod image;
mod subprocess;
mod text;

pub use codec::decode_build_spec;
pub use codec::decode_image;
pub use codec::decode_yaml_spec;
pub use codec::encode_build_entries;
pub use codec::encode_image;
pub use codec::encode_yaml_entries;
pub use codec::lemma_decode_bare_string;
pub use codec::lemma_decode_build_defaults;
pub use codec::lemma_image_round_trip;
pub use codec::opt_scalar_field;
pub use codec::scalar_field_or;
pub use doc::DocNode;
pub use doc::NodeView;
pub use doc::entry_views;
pub use doc::lookup_path;
pub use doc::lookup_step;
pub use doc::mapping_get;
pub use doc::node_view;
pub use doc::node_views;
pub use doc::parse_documents;
pub use doc::resolve_path;
pub use doc::resolve_spec;
pub use doc::yaml_documents_of;
pub use errors::FlokiError;
pub use errors::FlokiSubprocessExitStatus;
pub use image::BuildSpec;
pub use image::BuildSpecView;
pub use image::Image;
pub use image::ImageView;
pub use image::ObtainStep;
pub use image::YamlSpec;
pub use image::YamlSpecView;
pub use image::build_args_spec;
pub use image::build_completed;
pub use image::build_image_name;
pub use image::build_suffix;
pub use image::history_args;
pub use image::history_args_spec;
pub use image::image_exists_locally;
pub use image::image_tool;
pub use image::lemma_name_deterministic;
pub use image::name_error_matches;
pub use image::name_result_ok;
pub use image::pull_args;
pub use image::pull_args_spec;
pub use image::pull_image;
pub use subprocess::ProcessStatus;
pub use subprocess::SpawnOutcome;
pub use text::join_path;
pub use text::join_path_exec;
pub use text::parse_index;
pub use text::segment_index;
pub use text::seq_views;
pub use text::split_dots;
pub use text::split_dots_exec;

verus! {

} // verus!
