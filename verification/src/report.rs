//! Building the diagnostic report from captured command output and a
//! timestamp.

use vstd::prelude::*;

verus! {

/// A single-use report: a title carrying the timestamp and a body that
/// fences the raw command output in a literal code block.
pub struct DiagnosticReport {
    pub title: String,
    pub body: String,
}

/// The report title for a given timestamp.
pub open spec fn title_of(timestamp: Seq<char>) -> Seq<char> {
    "["@ + timestamp + "] Network Config of Raspberry Pi"@
}

/// The report body for given raw text: the text fenced in a literal code
/// block.
pub open spec fn body_of(raw_text: Seq<char>) -> Seq<char> {
    "```\n"@ + raw_text + "\n```"@
}

/// Build the report for the given raw command output and timestamp. Pure:
/// the result depends on the two arguments alone.
pub fn build_report(raw_text: &str, timestamp: &str) -> (r: DiagnosticReport)
    ensures
        r.title@ == title_of(timestamp@),
        r.body@ == body_of(raw_text@),
{
    let mut title = String::from_str("[");
    title.append(timestamp);
    title.append("] Network Config of Raspberry Pi");
    let mut body = String::from_str("```\n");
    body.append(raw_text);
    body.append("\n```");
    DiagnosticReport { title, body }
}

} // verus!
