//! The decision core of a per-file format request: it resolves the working
//! directory, drives the staged pipeline (configuration, manifest, project,
//! settings, capability check, open, format) and maps the engine's answers onto
//! a tri-state outcome. The engine and the file system are driven by the host,
//! which performs each action the pipeline hands out and feeds back the event.

mod capability;
mod laws;
mod outcome;
mod pipeline;

pub use capability::{format_supported, support_in, Capability, FeatureSupport, Support};
pub use outcome::{field_view, response_fields, response_of, FormatResult};
pub use pipeline::{
    advances, ends_with, fails_with, refused, vcs_base_of, Action, Event, ManifestData, Pipeline,
    ProjectHandle, Stage,
};
pub use laws::{
    action_handle, lemma_engine_error_is_structured, lemma_failure_stays_distinct,
    lemma_formatted_text_unchanged, lemma_handle_is_kept, lemma_manifest_is_attached,
    lemma_manifest_never_aborts, lemma_missing_configuration_goes_on, lemma_one_outcome,
    lemma_ignore_root_follows_configuration, lemma_open_only_when_supported,
    lemma_unsupported_file_is_ignored, stage_handle,
};
