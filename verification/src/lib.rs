//! A safe, verified model of a point-cloud pipeline engine's public surface:
//! the dimension-type system, point layouts, point views with typed
//! per-dimension value access, pipeline-description validation, and library
//! configuration introspection.
//!
//! Execution of pipelines and file I/O belong to a native engine; this crate
//! holds the data model and every decision that can be stated and proved over
//! plain values.

mod config;
mod dim;
mod encoding;
mod error;
mod json;
mod layout;
mod options;
mod pipeline;
mod point_view;
mod utils;
mod value;

pub use config::Config;
pub use config::Feature;
pub use config::lemma_full_version_contains_sha;
pub use config::lemma_version_integer_roundtrip;
pub use config::spec_full_version;
pub use config::spec_version_in_range;
pub use config::spec_version_string;
pub use dim::DimTypeId;
pub use dim::spec_dim_description;
pub use dim::spec_dim_name;
pub use encoding::DimType;
pub use encoding::DimTypeEncoding;
pub use encoding::PointId;
pub use encoding::lemma_ordinal_injective;
pub use encoding::spec_base_code;
pub use encoding::spec_encoding_name;
pub use encoding::spec_interpretation;
pub use encoding::spec_ordinal;
pub use encoding::spec_size_bytes;
pub use error::Error;
pub use error::lemma_no_reader_message_names_reader;
pub use error::spec_contains_substr;
pub use error::spec_error_message;
pub use json::is_digit;
pub use json::is_hex;
pub use json::is_simple_escape;
pub use json::is_ws;
pub use json::sp_digits;
pub use json::sp_elements_end;
pub use json::sp_exponent_end;
pub use json::sp_members_end;
pub use json::sp_number_end;
pub use json::sp_string_end;
pub use json::sp_value_end;
pub use json::sp_ws;
pub use layout::LayoutDimension;
pub use layout::PointLayout;
pub use layout::lemma_dim_within_point_size;
pub use layout::lemma_point_size_accounting;
pub use layout::spec_has_dim;
pub use layout::spec_layout_wf;
pub use layout::spec_total_dim_size;
pub use layout::spec_total_size;
pub use options::Options;
pub use pipeline::ExecutedPipeline;
pub use pipeline::PdalJson;
pub use pipeline::Pipeline;
pub use pipeline::SpStage;
pub use pipeline::Stage;
pub use pipeline::is_reader_extension;
pub use pipeline::key_filename;
pub use pipeline::key_pipeline;
pub use pipeline::key_type;
pub use pipeline::readers_prefix;
pub use pipeline::sp_last_dot;
pub use pipeline::sp_parse_stage_obj;
pub use pipeline::sp_parse_stages;
pub use pipeline::sp_pipeline_doc;
pub use pipeline::sp_root_members;
pub use pipeline::sp_stages_error;
pub use pipeline::spec_infers_reader;
pub use pipeline::spec_is_readers_type;
pub use pipeline::spec_lower;
pub use pipeline::spec_opt_stage_seq;
pub use pipeline::spec_stage_is_reader;
pub use pipeline::spec_stage_known;
pub use pipeline::spec_stage_seq;
pub use point_view::PointView;
pub use point_view::PointViewSet;
pub use point_view::spec_decode;
pub use point_view::spec_signed16;
pub use point_view::spec_signed32;
pub use point_view::spec_signed64;
pub use point_view::spec_signed8;
pub use utils::Conv;
pub use utils::decimal_string;
pub use utils::elided;
pub use utils::marshalled_bytes;
pub use utils::spec_decimal;
pub use utils::spec_digit_char;
pub use value::PdalValue;
pub use value::spec_value_encoding;
