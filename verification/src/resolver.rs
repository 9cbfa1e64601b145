//! The alert resolver's decisions: extracting the alert identifier from each
//! matched record. The identifier must live in the record's `CAP_ID` field as
//! a character value; its absence or a wrong type is a fatal schema error that
//! aborts the whole run, not a per-record skip.

use vstd::prelude::*;

use crate::error::PipelineError;
use crate::error::SchemaIssue;
use crate::record::AttributeRecord;
use crate::record::FieldModel;
use crate::record::FieldValue;
use crate::record::RecordModel;
use crate::record::field_lookup;
use crate::matcher::records_model;

verus! {

/// The identifier a record yields, or why it yields none.
pub open spec fn identifier_status(record: RecordModel) -> Result<Seq<char>, SchemaIssue> {
    match field_lookup(record, "CAP_ID"@) {
        Some(FieldModel::Text(t)) => Ok(t),
        Some(FieldModel::Blank) => Err(SchemaIssue::NotCharacter),
        Some(FieldModel::Other) => Err(SchemaIssue::NotCharacter),
        None => Err(SchemaIssue::MissingIdentifier),
    }
}

/// The identifiers of a match sequence in order, or the schema issue of the
/// first record — in match order — that yields none.
pub open spec fn resolve_ids(records: Seq<RecordModel>) -> Result<Seq<Seq<char>>, SchemaIssue>
    decreases records.len(),
{
    if records.len() == 0 {
        Ok(Seq::empty())
    } else {
        match identifier_status(records.first()) {
            Ok(t) => match resolve_ids(records.drop_first()) {
                Ok(rest) => Ok(seq![t] + rest),
                Err(issue) => Err(issue),
            },
            Err(issue) => Err(issue),
        }
    }
}

/// Extracts the alert identifier from the record's `CAP_ID` field.
pub fn extract_identifier(record: &AttributeRecord) -> (r: Result<String, PipelineError>)
    ensures
        match r {
            Ok(id) => identifier_status(record@) == Ok::<Seq<char>, SchemaIssue>(id@),
            Err(e) => identifier_status(record@) matches Err(issue) && e == PipelineError::Schema(
                issue,
            ),
        },
{
    let key: String = "CAP_ID".to_owned();
    match record.get(&key) {
        Some(FieldValue::Character(Some(s))) => Ok(s.clone()),
        Some(_) => Err(PipelineError::Schema(SchemaIssue::NotCharacter)),
        None => Err(PipelineError::Schema(SchemaIssue::MissingIdentifier)),
    }
}

/// When every record yields an identifier, the resolved sequence is the
/// identifier of each record, in order.
pub proof fn lemma_resolve_all_ok(records: Seq<RecordModel>)
    requires
        forall|j: int| 0 <= j < records.len() ==> identifier_status(#[trigger] records[j]) is Ok,
    ensures
        resolve_ids(records) == Ok::<Seq<Seq<char>>, SchemaIssue>(
            Seq::new(records.len(), |j: int| identifier_status(records[j])->Ok_0),
        ),
    decreases records.len(),
{
    if records.len() == 0 {
        assert(resolve_ids(records) == Ok::<Seq<Seq<char>>, SchemaIssue>(Seq::empty()));
        assert(Seq::new(records.len(), |j: int| identifier_status(records[j])->Ok_0)
            =~= Seq::<Seq<char>>::empty());
    } else {
        let rest = records.drop_first();
        assert(forall|j: int| 0 <= j < rest.len() ==> rest[j] == records[j + 1]);
        lemma_resolve_all_ok(rest);
        let t = identifier_status(records.first())->Ok_0;
        assert(seq![t] + Seq::new(rest.len(), |j: int| identifier_status(rest[j])->Ok_0)
            =~= Seq::new(records.len(), |j: int| identifier_status(records[j])->Ok_0));
    }
}

/// When the records before position `k` all yield identifiers and the record
/// at `k` does not, resolution fails with exactly that record's issue.
pub proof fn lemma_resolve_first_err(records: Seq<RecordModel>, k: int)
    requires
        0 <= k < records.len(),
        forall|j: int| 0 <= j < k ==> identifier_status(#[trigger] records[j]) is Ok,
        identifier_status(records[k]) is Err,
    ensures
        resolve_ids(records) == Err::<Seq<Seq<char>>, SchemaIssue>(
            identifier_status(records[k])->Err_0,
        ),
    decreases k,
{
    if k == 0 {
    } else {
        let rest = records.drop_first();
        assert(forall|j: int| 0 <= j < rest.len() ==> rest[j] == records[j + 1]);
        lemma_resolve_first_err(rest, k - 1);
    }
}

/// A record without an identifier anywhere in the sequence makes resolution
/// fail, however many valid records precede or follow it.
pub proof fn lemma_resolve_any_err(records: Seq<RecordModel>, k: int)
    requires
        0 <= k < records.len(),
        identifier_status(records[k]) is Err,
    ensures
        resolve_ids(records) is Err,
    decreases records.len(),
{
    if identifier_status(records.first()) is Err {
    } else {
        let rest = records.drop_first();
        assert(forall|j: int| 0 <= j < rest.len() ==> rest[j] == records[j + 1]);
        assert(k >= 1);
        lemma_resolve_any_err(rest, k - 1);
    }
}

/// Extracts the identifier of every record, in order; the first record that
/// yields none aborts the extraction with its schema error.
pub fn extract_identifiers(records: &Vec<AttributeRecord>) -> (r: Result<
    Vec<String>,
    PipelineError,
>)
    ensures
        match r {
            Ok(ids) => resolve_ids(records_model(records@)) matches Ok(texts) && ids@.map_values(
                |s: String| s@,
            ) == texts,
            Err(e) => resolve_ids(records_model(records@)) matches Err(issue) && e
                == PipelineError::Schema(issue),
        },
{
    let ghost model = records_model(records@);
    let mut ids: Vec<String> = Vec::new();
    let mut i: usize = 0;
    while i < records.len()
        invariant
            0 <= i <= records.len(),
            model == records_model(records@),
            model.len() == records@.len(),
            ids@.len() == i,
            forall|j: int| 0 <= j < i ==> identifier_status(#[trigger] model[j]) is Ok,
            forall|j: int| 0 <= j < i ==> (#[trigger] ids@[j])@ == identifier_status(
                model[j],
            )->Ok_0,
        decreases records.len() - i,
    {
        proof {
            assert(model[i as int] == records@[i as int]@);
        }
        match extract_identifier(&records[i]) {
            Ok(id) => {
                ids.push(id);
            },
            Err(e) => {
                proof {
                    lemma_resolve_first_err(model, i as int);
                }
                return Err(e);
            },
        }
        i += 1;
    }
    proof {
        lemma_resolve_all_ok(model);
        assert(ids@.map_values(|s: String| s@) =~= Seq::new(
            model.len(),
            |j: int| identifier_status(model[j])->Ok_0,
        ));
    }
    Ok(ids)
}

} // verus!
