//! The run's decision chain from decoded data to alert requests: filter the
//! records by their containment flags, then extract every matched record's
//! alert identifier. Any matched record without a valid identifier aborts the
//! whole run before a single identifier — and hence a single line of output —
//! is produced.

use vstd::prelude::*;

use crate::error::PipelineError;
use crate::matcher::entries_model;
use crate::matcher::lemma_matched_iff;
use crate::matcher::match_records;
use crate::matcher::matched_of;
use crate::record::AttributeRecord;
use crate::record::RecordModel;
use crate::present::Resolution;
use crate::present::report_of;
use crate::resolver::extract_identifiers;
use crate::resolver::identifier_status;
use crate::resolver::lemma_resolve_any_err;
use crate::resolver::resolve_ids;

verus! {

/// From flagged records to the identifiers of the matched ones, in match
/// order, or to the schema error of the first matched record without one.
pub fn run_pipeline(entries: &Vec<(bool, AttributeRecord)>) -> (r: Result<
    Vec<String>,
    PipelineError,
>)
    ensures
        match r {
            Ok(ids) => resolve_ids(matched_of(entries_model(entries@))) matches Ok(texts)
                && ids@.map_values(|s: String| s@) == texts,
            Err(e) => resolve_ids(matched_of(entries_model(entries@))) matches Err(issue) && e
                == PipelineError::Schema(issue),
        },
{
    let matched = match_records(entries);
    extract_identifiers(&matched)
}

/// A coordinate that no polygon contains produces no output at all: the
/// match set is empty, identifier resolution yields no identifiers, and the
/// rendered report of no resolutions is the empty text — no separator and no
/// error line.
pub proof fn lemma_no_match_no_output(entries: Seq<(bool, RecordModel)>)
    requires
        forall|i: int| 0 <= i < entries.len() ==> !(#[trigger] entries[i]).0,
    ensures
        matched_of(entries) == Seq::<RecordModel>::empty(),
        resolve_ids(matched_of(entries)) == Ok::<Seq<Seq<char>>, crate::error::SchemaIssue>(
            Seq::empty(),
        ),
        report_of(Seq::<Resolution>::empty()) == Seq::<char>::empty(),
    decreases entries.len(),
{
    if entries.len() == 0 {
    } else {
        assert(forall|i: int|
            0 <= i < entries.len() - 1 ==> entries.drop_last()[i] == entries[i]);
        lemma_no_match_no_output(entries.drop_last());
        assert(!entries.last().0);
    }
}

/// One matched record whose identifier is missing or mistyped aborts the
/// run's identifier resolution, however many well-formed matches precede or
/// follow it.
pub proof fn lemma_schema_abort(entries: Seq<(bool, RecordModel)>, k: int)
    requires
        0 <= k < entries.len(),
        entries[k].0,
        identifier_status(entries[k].1) is Err,
    ensures
        resolve_ids(matched_of(entries)) is Err,
{
    lemma_matched_iff(entries, entries[k].1);
    assert(matched_of(entries).contains(entries[k].1));
    let j = choose|j: int|
        0 <= j < matched_of(entries).len() && matched_of(entries)[j] == entries[k].1;
    lemma_resolve_any_err(matched_of(entries), j);
}

} // verus!
