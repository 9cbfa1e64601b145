//! Geofenced weather-alert resolution: given a coordinate, find the active
//! alert polygons that contain it, resolve each polygon's alert identifier
//! against the remote alerts API, and render the resolved alerts as text.
//!
//! The library holds the pipeline's decisions: matching records by their
//! containment flags, extracting the alert identifier from a record's
//! attributes, building the request values, and rendering the report.
//! The surrounding binary performs the network and file work and hands the
//! results back in as plain values.

mod alert;
mod error;
mod matcher;
mod pipeline;
mod present;
mod record;
mod request;
mod resolver;

pub use alert::Alert;
pub use alert::ContextClass;
pub use alert::ContextElement;
pub use alert::Geocode;
pub use alert::Parameters;
pub use alert::Properties;
pub use alert::Reference;
pub use error::PipelineError;
pub use error::SchemaIssue;
pub use matcher::entries_model;
pub use matcher::lemma_matched_deterministic;
pub use matcher::lemma_matched_iff;
pub use matcher::match_records;
pub use matcher::matched_of;
pub use matcher::records_model;
pub use pipeline::lemma_no_match_no_output;
pub use pipeline::lemma_schema_abort;
pub use pipeline::run_pipeline;
pub use present::Resolution;
pub use present::alert_block;
pub use present::block_of;
pub use present::error_text;
pub use present::lemma_error_then_success;
pub use present::lemma_report_decomposition;
pub use present::lemma_single_success;
pub use present::render_report;
pub use present::report_of;
pub use present::separator_text;
pub use record::AttributeRecord;
pub use record::FieldModel;
pub use record::FieldValue;
pub use record::RecordModel;
pub use record::field_lookup;
pub use record::field_model;
pub use request::accept_value;
pub use request::alert_url;
pub use request::archive_url;
pub use request::shapefile_path;
pub use request::user_agent;
pub use resolver::extract_identifier;
pub use resolver::extract_identifiers;
pub use resolver::identifier_status;
pub use resolver::lemma_resolve_all_ok;
pub use resolver::lemma_resolve_any_err;
pub use resolver::lemma_resolve_first_err;
pub use resolver::resolve_ids;
