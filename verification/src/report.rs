//! The report: one row per attempted character, and its rendering as HTML.

use crate::ascii_chars::AsciiChars;
use crate::history::{history_of, summary_of, AttemptLog};
use crate::stats::{HitType, StatSummary};
use crate::text::{decimal, push_decimal};
use vstd::prelude::*;
use vstd::string::*;

verus! {

/// What the document holds before the first row: the opening tags, the
/// heading and the row of column titles.
pub const REPORT_HEAD: &'static str =
    "<html><body><h1>Stats Report</h1><table border='1'><tr><th>Character</th><th>Hits</th><th>LowMS</th><th>HighMS</th><th>AvgMS</th><th>Misses</th></tr>";

/// What the document holds after the last row.
pub const REPORT_TAIL: &'static str = "</table></body></html>";

/// One row of the report: a character and the summary of its attempts.
#[derive(Clone, Copy, Debug, PartialEq, Eq)]
pub struct ReportRow {
    pub char_id: AsciiChars,
    pub summary: StatSummary,
}

impl View for ReportRow {
    type V = (u8, StatSummary);

    /// The code of the row's character, and its summary.
    open spec fn view(&self) -> (u8, StatSummary) {
        (self.char_id@, self.summary)
    }
}

/// The rows as code and summary.
pub open spec fn row_views(rows: Seq<ReportRow>) -> Seq<(u8, StatSummary)> {
    rows.map_values(|row: ReportRow| row@)
}

/// The rows of the characters with a code below `bound`: by rising code, a
/// row for each character with at least one attempt.
pub open spec fn rows_below(log: AttemptLog, bound: int) -> Seq<(u8, StatSummary)>
    decreases bound,
{
    if bound <= 0 {
        Seq::empty()
    } else {
        let code = (bound - 1) as u8;
        let earlier = rows_below(log, bound - 1);
        if history_of(log, code).len() > 0 {
            earlier.push((code, summary_of(history_of(log, code))))
        } else {
            earlier
        }
    }
}

/// The rows of the report on `log`.
pub open spec fn rows_of(log: AttemptLog) -> Seq<(u8, StatSummary)> {
    rows_below(log, 256)
}

/// One table row: the character, its hits, the fastest, the slowest and the
/// mean reaction time, and its misses.
pub open spec fn row_text(row: (u8, StatSummary)) -> Seq<char> {
    "<tr><td>"@.push(row.0 as char) + "</td><td>"@ + decimal(row.1.total_hits as nat)
        + "</td><td>"@ + decimal(row.1.hit_low as nat) + "</td><td>"@ + decimal(
        row.1.hit_high as nat,
    ) + "</td><td>"@ + decimal(row.1.hit_avg as nat) + "</td><td>"@ + decimal(
        row.1.total_misses as nat,
    ) + "</td></tr>"@
}

/// The table rows for `rows`, one after the other.
pub open spec fn rows_text(rows: Seq<(u8, StatSummary)>) -> Seq<char>
    decreases rows.len(),
{
    if rows.len() == 0 {
        Seq::empty()
    } else {
        rows_text(rows.drop_last()) + row_text(rows.last())
    }
}

/// The document that shows `rows` as a table.
pub open spec fn document_text(rows: Seq<(u8, StatSummary)>) -> Seq<char> {
    REPORT_HEAD@ + rows_text(rows) + REPORT_TAIL@
}

/// The report on `log` as a document.
pub open spec fn report_text(log: AttemptLog) -> Seq<char> {
    document_text(rows_of(log))
}

/// Characters without attempts have no row.
pub proof fn lemma_rows_skip_unattempted(log: AttemptLog, from: int, to: int)
    requires
        0 <= from <= to <= 256,
        forall|code: u8| from <= code < to ==> (#[trigger] history_of(log, code)).len() == 0,
    ensures
        rows_below(log, to) == rows_below(log, from),
    decreases to - from,
{
    if from < to {
        lemma_rows_skip_unattempted(log, from, to - 1);
    }
}

/// The rows for the characters below `bound` are rows of such characters,
/// each with the summary of its character's attempts, and stand by rising
/// code.
proof fn lemma_rows_below(log: AttemptLog, bound: int)
    requires
        0 <= bound <= 256,
    ensures
        forall|i: int|
            0 <= i < rows_below(log, bound).len() ==> (#[trigger] rows_below(log, bound)[i]).0
                < bound,
        forall|i: int|
            0 <= i < rows_below(log, bound).len() ==> history_of(
                log,
                (#[trigger] rows_below(log, bound)[i]).0,
            ).len() > 0,
        forall|i: int|
            0 <= i < rows_below(log, bound).len() ==> (#[trigger] rows_below(log, bound)[i]).1
                == summary_of(history_of(log, rows_below(log, bound)[i].0)),
        forall|i: int, j: int|
            0 <= i < j < rows_below(log, bound).len() ==> (#[trigger] rows_below(log, bound)[i]).0
                < (#[trigger] rows_below(log, bound)[j]).0,
        forall|code: u8|
            code < bound && (#[trigger] history_of(log, code)).len() > 0 ==> exists|i: int|
                0 <= i < rows_below(log, bound).len() && (#[trigger] rows_below(log, bound)[i]).0
                    == code,
    decreases bound,
{
    if bound > 0 {
        lemma_rows_below(log, bound - 1);
        let last = (bound - 1) as u8;
        let earlier = rows_below(log, bound - 1);
        let rows = rows_below(log, bound);
        assert forall|code: u8|
            code < bound && (#[trigger] history_of(log, code)).len() > 0 implies exists|i: int|
            0 <= i < rows.len() && (#[trigger] rows[i]).0 == code by {
            if code == last {
                assert(rows[rows.len() - 1].0 == code);
            } else {
                let i = choose|i: int| 0 <= i < earlier.len() && (#[trigger] earlier[i]).0 == code;
                assert(rows[i].0 == code);
            }
        }
    }
}

/// The rows of the report stand by rising character code, whatever the order
/// in which the attempts were recorded.
pub proof fn lemma_rows_in_order(log: AttemptLog)
    ensures
        forall|i: int, j: int|
            0 <= i < j < rows_of(log).len() ==> (#[trigger] rows_of(log)[i]).0 < (
            #[trigger] rows_of(log)[j]).0,
{
    lemma_rows_below(log, 256);
}

/// The report has a row for a character if and only if the log holds an
/// attempt at it, and each row shows the summary of its character's attempts.
pub proof fn lemma_rows_cover_attempted(log: AttemptLog)
    ensures
        forall|code: u8|
            (#[trigger] history_of(log, code)).len() > 0 <==> exists|i: int|
                0 <= i < rows_of(log).len() && (#[trigger] rows_of(log)[i]).0 == code,
        forall|i: int|
            0 <= i < rows_of(log).len() ==> (#[trigger] rows_of(log)[i]).1 == summary_of(
                history_of(log, rows_of(log)[i].0),
            ),
{
    lemma_rows_below(log, 256);
}

/// The report on an empty log has no rows: the document is the heading and
/// the column titles alone.
pub proof fn lemma_empty_report()
    ensures
        rows_of(Map::<u8, Seq<HitType>>::empty()) == Seq::<(u8, StatSummary)>::empty(),
        report_text(Map::<u8, Seq<HitType>>::empty()) == REPORT_HEAD@ + REPORT_TAIL@,
{
    lemma_rows_skip_unattempted(Map::<u8, Seq<HitType>>::empty(), 0, 256);
}

impl ReportRow {
    /// Appends this row to `html` as a table row.
    pub fn push_html(&self, html: &mut String)
        ensures
            final(html)@ == old(html)@ + row_text(self@),
    {
        html.append("<tr><td>");
        html.push(self.char_id.as_char());
        html.append("</td><td>");
        push_decimal(html, self.summary.total_hits as u64);
        html.append("</td><td>");
        push_decimal(html, self.summary.hit_low);
        html.append("</td><td>");
        push_decimal(html, self.summary.hit_high);
        html.append("</td><td>");
        push_decimal(html, self.summary.hit_avg);
        html.append("</td><td>");
        push_decimal(html, self.summary.total_misses as u64);
        html.append("</td></tr>");
    }
}

/// Renders `rows` as a self-contained HTML document: a heading and a table
/// with one row per element of `rows`, in their order.
pub fn html_document(rows: &Vec<ReportRow>) -> (html: String)
    ensures
        html@ == document_text(row_views(rows@)),
{
    let mut html = String::new();
    html.append(REPORT_HEAD);
    let mut i: usize = 0;
    while i < rows.len()
        invariant
            i <= rows.len(),
            html@ == REPORT_HEAD@ + rows_text(row_views(rows@.take(i as int))),
        decreases rows.len() - i,
    {
        rows[i].push_html(&mut html);
        proof {
            let shown = row_views(rows@.take(i + 1));
            assert(shown.drop_last() =~= row_views(rows@.take(i as int)));
        }
        i = i + 1;
    }
    assert(rows@.take(i as int) =~= rows@);
    html.append(REPORT_TAIL);
    html
}

} // verus!
