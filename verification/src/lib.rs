//! A configuration-driven file-upload client library.
//!
//! Each upload target is described by an [`Config`]: a URL, static
//! headers and form fields, the multipart field name for the file, and two
//! JSON paths telling the interpreter where in the endpoint's response to
//! find the success URL or the error message. One generic interpretation
//! routine then supports an open-ended set of third-party endpoints.

mod catalog;
mod config;
mod interpret;
mod jsonpath;
mod jsonval;
mod rawjson;
mod strutil;
mod upload;

pub use catalog::builtin_catalog;
pub use catalog::use_build_in_config;
pub use config::Config;
pub use config::ConfigView;
pub use config::EntrySpec;
pub use config::configs_view;
pub use config::load_configs;
pub use config::parse_config;
pub use config::select_config;
pub use config::spec_parse_config;
pub use config::spec_parse_entry;
pub use config::spec_parse_items;
pub use config::spec_parse_path;
pub use config::spec_parse_str_map;
pub use config::spec_select;
pub use interpret::Outcome;
pub use interpret::UploadResult;
pub use interpret::interpret_parsed;
pub use interpret::interpret_response;
pub use interpret::lemma_failure_reason_nonempty;
pub use interpret::lemma_plain_url_success;
pub use interpret::lemma_success_path_miss_falls_through;
pub use interpret::spec_interpret;
pub use interpret::spec_uploadcc_outcome;
pub use interpret::spec_uploadcc_path;
pub use jsonpath::PathStep;
pub use jsonpath::StepView;
pub use jsonpath::lemma_step_failure_propagates;
pub use jsonpath::resolve;
pub use jsonpath::resolve_path;
pub use jsonpath::step_into;
pub use jsonpath::steps_view;
pub use jsonval::JsonVal;
pub use jsonval::get_field;
pub use jsonval::obj_get;
pub use jsonval::obj_lookup;
pub use jsonval::spec_field;
pub use rawjson::parse_json;
pub use rawjson::parsed_json_of;
pub use strutil::base_name;
pub use strutil::spec_base_name;
pub use strutil::spec_starts_with;
pub use strutil::str_eq;
pub use strutil::str_starts_with;
pub use upload::FormPart;
pub use upload::FormPartView;
pub use upload::build_form_parts;
pub use upload::local_file_error;
pub use upload::parts_view;
pub use upload::spec_form_parts;
