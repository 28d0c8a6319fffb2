//! Reading the answer of the vendor's GPU query tool.
//!
//! The tool is asked for utilization and temperature without header or
//! units, and answers with one line per GPU, the two figures separated by a
//! comma. Only the first line counts.

use vstd::prelude::*;
use crate::text::{find_char, first_line, first_line_of, position_of, trim, trimmed};

verus! {

/// The two fields of the tool's answer, as text, with no white space around them.
#[derive(Clone, Copy, Debug, PartialEq, Eq)]
pub struct ReportFields<'a> {
    pub utilization: &'a str,
    pub temperature: &'a str,
}

/// The first two comma-separated fields of `line`, trimmed; `None` where
/// the line holds no comma and so has a single field.
pub open spec fn fields_of_line(line: Seq<char>) -> Option<(Seq<char>, Seq<char>)> {
    let first = position_of(line, ',', 0);
    let second = position_of(line, ',', first + 1);
    if first >= line.len() {
        None
    } else {
        Some((trimmed(line.subrange(0, first)), trimmed(line.subrange(first + 1, second))))
    }
}

/// The first two fields of the first line of `output`.
pub open spec fn fields_of(output: Seq<char>) -> Option<(Seq<char>, Seq<char>)> {
    match first_line_of(output) {
        Some(line) => fields_of_line(line),
        None => None,
    }
}

/// Finds utilization and temperature in what the tool printed. `None`
/// where the output is empty or its first line has fewer than two fields.
/// What follows the second field, on that line or below it, is not looked at.
pub fn report_fields<'a>(output: &'a str) -> (fields: Option<ReportFields<'a>>)
    ensures
        fields is Some <==> fields_of(output@) is Some,
        fields matches Some(f) ==> fields_of(output@) == Some((f.utilization@, f.temperature@)),
{
    let line: &str = match first_line(output) {
        Some(l) => l,
        None => {
            return None;
        },
    };
    let len: usize = line.unicode_len();
    let first: usize = find_char(line, ',', 0);
    if first >= len {
        return None;
    }
    let second: usize = find_char(line, ',', first + 1);
    Some(
        ReportFields {
            utilization: trim(line.substring_char(0, first)),
            temperature: trim(line.substring_char(first + 1, second)),
        },
    )
}

} // verus!
