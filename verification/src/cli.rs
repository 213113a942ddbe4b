//! Choices made on the command line.
use vstd::prelude::*;

verus! {

/// The format of a written report.
#[derive(Clone, Copy, Debug, PartialEq, Eq, Structural)]
pub enum ReportFormat {
    Json,
    Markdown,
}

/// The format asked for on the command line, else the configured one: `json`
/// is JSON, anything else Markdown.
pub fn report_format(chosen: Option<ReportFormat>, configured: &str) -> (f: ReportFormat)
    ensures
        chosen matches Some(c) ==> f == c,
        chosen is None ==> f == (if configured@ == "json"@ {
            ReportFormat::Json
        } else {
            ReportFormat::Markdown
        }),
{
    match chosen {
        Some(c) => c,
        None => {
            let text = crate::text::chars_of(configured);
            if crate::text::equals(&text, "json") {
                ReportFormat::Json
            } else {
                ReportFormat::Markdown
            }
        },
    }
}

} // verus!
