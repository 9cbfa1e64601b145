//! The pipeline's error taxonomy. Every fatal condition of a run is one of
//! these variants; per-match alert-fetch failures are not errors of this type
//! but error markers in the rendered report.

use vstd::prelude::*;

verus! {

/// Why a matched attribute record could not yield an alert identifier.
#[derive(Debug, PartialEq, Eq, Structural, Clone, Copy)]
pub enum SchemaIssue {
    /// The identifier field is absent from the record.
    MissingIdentifier,
    /// The identifier field is present but is not a character field with text.
    NotCharacter,
}

/// A fatal error of the pipeline. Each aborts the whole run.
#[derive(Debug, PartialEq, Eq, Structural, Clone, Copy)]
pub enum PipelineError {
    /// The archive request could not be sent or completed.
    Transport,
    /// A local file could not be created, written or opened.
    Io,
    /// The archive, its compression framing, or the shapefile is malformed.
    Decode,
    /// A matched record's identifier attribute is missing or mistyped.
    Schema(SchemaIssue),
}

impl PipelineError {
    /// The diagnostic text for this error, as shown when the run aborts.
    pub fn describe(&self) -> (msg: String)
        ensures
            *self == PipelineError::Transport ==> msg@ == "Failed to download alerts shapefile."@,
            *self == PipelineError::Io ==> msg@ == "Cannot write alerts shapefile."@,
            *self == PipelineError::Decode ==> msg@ == "Could not decode alerts shapefile."@,
            *self == PipelineError::Schema(SchemaIssue::MissingIdentifier) ==> msg@
                == "Field 'CAP_ID' is not within the record"@,
            *self == PipelineError::Schema(SchemaIssue::NotCharacter) ==> msg@
                == "Expected 'CAP_ID' to be a character"@,
    {
        match self {
            PipelineError::Transport => "Failed to download alerts shapefile.".to_owned(),
            PipelineError::Io => "Cannot write alerts shapefile.".to_owned(),
            PipelineError::Decode => "Could not decode alerts shapefile.".to_owned(),
            PipelineError::Schema(SchemaIssue::MissingIdentifier) => {
                "Field 'CAP_ID' is not within the record".to_owned()
            },
            PipelineError::Schema(SchemaIssue::NotCharacter) => {
                "Expected 'CAP_ID' to be a character".to_owned()
            },
        }
    }
}

} // verus!
