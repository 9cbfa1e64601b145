//! The presenter. Each match resolves to either a full alert or an explicit
//! error marker; the report renders them in match order, a separator line
//! before every result — including the first — and, for a resolved alert, the
//! headline, description, instruction and area description in that order,
//! each followed by a blank line.

use vstd::prelude::*;
use vstd::string::StringExecFns;

use crate::alert::Alert;

verus! {

/// What one match resolved to: the full alert record, or the marker left
/// when its detail fetch or decode failed.
pub enum Resolution {
    Resolved(Alert),
    FetchFailed,
}

/// The separator line printed before every result.
pub open spec fn separator_text() -> Seq<char> {
    "===============================\n"@
}

/// The four display fields of a resolved alert, in order, each followed by a
/// blank line.
pub open spec fn alert_block(a: Alert) -> Seq<char> {
    a.properties.headline@ + "\n\n"@ + a.properties.description@ + "\n\n"@
        + a.properties.instruction@ + "\n\n"@ + a.properties.area_desc@ + "\n\n"@
}

/// The error notice printed for a match whose alert could not be fetched.
pub open spec fn error_text() -> Seq<char> {
    "ERROR\n"@
}

/// The text one resolution contributes to the report.
pub open spec fn block_of(o: Resolution) -> Seq<char> {
    match o {
        Resolution::Resolved(a) => alert_block(a),
        Resolution::FetchFailed => error_text(),
    }
}

/// The whole report: a separator and a block for each resolution, in order.
pub open spec fn report_of(outcomes: Seq<Resolution>) -> Seq<char>
    decreases outcomes.len(),
{
    if outcomes.len() == 0 {
        Seq::empty()
    } else {
        report_of(outcomes.drop_last()) + separator_text() + block_of(outcomes.last())
    }
}

/// Appends the text of one resolution to the report.
fn append_block(out: &mut String, outcome: &Resolution)
    ensures
        final(out)@ == old(out)@ + block_of(*outcome),
{
    match outcome {
        Resolution::Resolved(a) => {
            out.append(a.properties.headline.as_str());
            out.append("\n\n");
            out.append(a.properties.description.as_str());
            out.append("\n\n");
            out.append(a.properties.instruction.as_str());
            out.append("\n\n");
            out.append(a.properties.area_desc.as_str());
            out.append("\n\n");
        },
        Resolution::FetchFailed => {
            out.append("ERROR\n");
        },
    }
}

/// Renders the report for the resolutions of a run's matches. A run with no
/// matches renders nothing at all: no separator and no error line.
pub fn render_report(outcomes: &Vec<Resolution>) -> (out: String)
    ensures
        out@ == report_of(outcomes@),
        outcomes@.len() == 0 ==> out@ == Seq::<char>::empty(),
{
    let mut out = String::new();
    proof {
        assert(outcomes@.take(0) =~= Seq::<Resolution>::empty());
    }
    let mut i: usize = 0;
    while i < outcomes.len()
        invariant
            0 <= i <= outcomes.len(),
            out@ == report_of(outcomes@.take(i as int)),
        decreases outcomes.len() - i,
    {
        let ghost step = outcomes@.take(i as int + 1);
        proof {
            assert(step.drop_last() =~= outcomes@.take(i as int));
            assert(step.last() == outcomes@[i as int]);
        }
        out.append("===============================\n");
        append_block(&mut out, &outcomes[i]);
        i += 1;
    }
    proof {
        assert(outcomes@.take(i as int) =~= outcomes@);
    }
    out
}

/// The report decomposes around any one match: what precedes it, then its
/// separator and block, then what follows. A separator therefore precedes
/// every block, the first included, and blocks stand in match order.
pub proof fn lemma_report_decomposition(outcomes: Seq<Resolution>, i: int)
    requires
        0 <= i < outcomes.len(),
    ensures
        report_of(outcomes) == report_of(outcomes.take(i)) + separator_text() + block_of(
            outcomes[i],
        ) + report_of(outcomes.skip(i + 1)),
    decreases outcomes.len(),
{
    if i == outcomes.len() - 1 {
        assert(outcomes.skip(i + 1) =~= Seq::<Resolution>::empty());
        assert(outcomes.take(i) =~= outcomes.drop_last());
        assert(report_of(outcomes) + report_of(outcomes.skip(i + 1)) =~= report_of(outcomes));
    } else {
        lemma_report_decomposition(outcomes.drop_last(), i);
        assert(outcomes.drop_last().take(i) =~= outcomes.take(i));
        assert(outcomes.drop_last()[i] == outcomes[i]);
        assert(outcomes.drop_last().skip(i + 1) =~= outcomes.skip(i + 1).drop_last());
        let head = report_of(outcomes.take(i)) + separator_text() + block_of(outcomes[i]);
        assert(report_of(outcomes) == head + report_of(outcomes.skip(i + 1).drop_last())
            + separator_text() + block_of(outcomes.last())) by {
            assert((head + report_of(outcomes.skip(i + 1).drop_last())) + separator_text()
                + block_of(outcomes.last()) =~= head + report_of(outcomes.skip(i + 1).drop_last())
                + separator_text() + block_of(outcomes.last()));
        }
        assert(outcomes.skip(i + 1).last() == outcomes.last());
        assert(outcomes.skip(i + 1).len() > 0);
        assert(report_of(outcomes.skip(i + 1)) == report_of(outcomes.skip(i + 1).drop_last())
            + separator_text() + block_of(outcomes.skip(i + 1).last()));
        assert(head + report_of(outcomes.skip(i + 1).drop_last()) + separator_text() + block_of(
            outcomes.last(),
        ) =~= head + report_of(outcomes.skip(i + 1)));
    }
}

/// A single successfully resolved match renders exactly one separator
/// followed by the four fields in their fixed order, with nothing after.
pub proof fn lemma_single_success(outcomes: Seq<Resolution>, a: Alert)
    requires
        outcomes =~= seq![Resolution::Resolved(a)],
    ensures
        report_of(outcomes) == separator_text() + alert_block(a),
        alert_block(a) == a.properties.headline@ + "\n\n"@ + a.properties.description@ + "\n\n"@
            + a.properties.instruction@ + "\n\n"@ + a.properties.area_desc@ + "\n\n"@,
{
    assert(outcomes.len() == 1);
    assert(outcomes.last() == Resolution::Resolved(a));
    assert(outcomes.drop_last() =~= Seq::<Resolution>::empty());
    assert(report_of(outcomes) == report_of(Seq::<Resolution>::empty()) + separator_text()
        + alert_block(a));
    assert(Seq::<char>::empty() + separator_text() + alert_block(a) =~= separator_text()
        + alert_block(a));
}

/// A fetch failure for one match never aborts the run: the report carries
/// that match's error marker and then the next match's block, in order.
pub proof fn lemma_error_then_success(outcomes: Seq<Resolution>, k: int)
    requires
        0 <= k,
        k + 1 < outcomes.len(),
        outcomes[k] == Resolution::FetchFailed,
        outcomes[k + 1] is Resolved,
    ensures
        report_of(outcomes) == report_of(outcomes.take(k)) + separator_text() + error_text()
            + separator_text() + block_of(outcomes[k + 1]) + report_of(outcomes.skip(k + 2)),
{
    lemma_report_decomposition(outcomes, k);
    lemma_report_decomposition(outcomes.skip(k + 1), 0);
    assert(outcomes.skip(k + 1).take(0) =~= Seq::<Resolution>::empty());
    assert(outcomes.skip(k + 1)[0] == outcomes[k + 1]);
    assert(outcomes.skip(k + 1).skip(1) =~= outcomes.skip(k + 2));
    assert(report_of(outcomes.skip(k + 1)) == Seq::<char>::empty() + separator_text() + block_of(
        outcomes[k + 1],
    ) + report_of(outcomes.skip(k + 2)));
    assert(Seq::<char>::empty() + separator_text() + block_of(outcomes[k + 1]) =~= separator_text()
        + block_of(outcomes[k + 1]));
    assert(report_of(outcomes.take(k)) + separator_text() + error_text() + (separator_text()
        + block_of(outcomes[k + 1]) + report_of(outcomes.skip(k + 2))) =~= report_of(
        outcomes.take(k),
    ) + separator_text() + error_text() + separator_text() + block_of(outcomes[k + 1]) + report_of(
        outcomes.skip(k + 2),
    ));
}

} // verus!
