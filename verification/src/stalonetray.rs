//! The tray helper's reports: stalonetray logs its geometry, and the strip
//! takes its width from that.

use vstd::prelude::*;
use crate::number::parse_u32;
use crate::number::spec_u32;
use crate::state::BarState;

verus! {

/// What a geometry announcement of stalonetray looks like. The first group
/// holds the number that the strip takes for its width.
pub const GEOMETRY_PATTERN: &'static str = r"geometry: \d+x\d+\+(\d+)*";

/// For each match of the regular expression `pattern` in `line`, from left
/// to right and without overlap, the text of its first group; `None` for a
/// match in which that group took no part. `None` in all where `pattern`
/// is no regular expression.
pub uninterp spec fn first_groups(pattern: Seq<char>, line: Seq<char>) -> Option<
    Seq<Option<Seq<char>>>,
>;

/// The texts of a list of groups.
pub open spec fn group_texts(groups: Seq<Option<String>>) -> Seq<Option<Seq<char>>> {
    groups.map_values(
        |g: Option<String>|
            match g {
                Some(text) => Some(text@),
                None => None,
            },
    )
}

/// The width that the groups of one line report: the number of the last
/// group that writes one which a `u32` holds. A line may announce more than
/// one geometry; the last one stands.
pub open spec fn spec_reported_width(groups: Seq<Option<Seq<char>>>) -> Option<u32>
    decreases groups.len(),
{
    if groups.len() == 0 {
        None
    } else {
        match groups.last() {
            Some(text) => match spec_u32(text) {
                Some(width) => Some(width),
                None => spec_reported_width(groups.drop_last()),
            },
            None => spec_reported_width(groups.drop_last()),
        }
    }
}

/// The width that a line of the helper's output reports, if any.
pub open spec fn spec_tray_width(line: Seq<char>) -> Option<u32> {
    match first_groups(GEOMETRY_PATTERN@, line) {
        Some(groups) => spec_reported_width(groups),
        None => None,
    }
}

/// Compiles `pattern` with `regex::Regex::new` and walks `line` with
/// `Regex::captures_iter`, taking group 1 of each match by `Captures::get`.
///
/// The contract gives the result its name and claims nothing else: what the
/// regex crate finds depends on `pattern` and `line` alone.
#[verifier::external_body]
fn match_first_groups(pattern: &str, line: &str) -> (groups: Option<Vec<Option<String>>>)
    ensures
        match groups {
            Some(g) => first_groups(pattern@, line@) == Some(group_texts(g@)),
            None => first_groups(pattern@, line@) is None,
        },
{
    match regex::Regex::new(pattern) {
        Ok(re) => Some(
            re.captures_iter(line).map(|c| c.get(1).map(|m| m.as_str().to_string())).collect(),
        ),
        Err(_) => None,
    }
}

/// The width that the groups of one line report.
pub fn reported_width(groups: &Vec<Option<String>>) -> (width: Option<u32>)
    ensures
        width == spec_reported_width(group_texts(groups@)),
{
    let ghost texts = group_texts(groups@);
    let mut width: Option<u32> = None;
    let mut i: usize = 0;
    while i < groups.len()
        invariant
            i <= groups.len(),
            texts == group_texts(groups@),
            width == spec_reported_width(texts.subrange(0, i as int)),
        decreases groups.len() - i,
    {
        proof {
            let longer = texts.subrange(0, i + 1);
            assert(longer.drop_last() =~= texts.subrange(0, i as int));
            assert(longer.last() == texts[i as int]);
        }
        match &groups[i] {
            Some(text) => {
                match parse_u32(text.as_str()) {
                    Some(w) => {
                        width = Some(w);
                    },
                    None => {},
                }
            },
            None => {},
        }
        i = i + 1;
    }
    assert(texts.subrange(0, groups.len() as int) =~= texts);
    width
}

/// The width that a line of the helper's output reports, if any.
pub fn tray_width(line: &str) -> (width: Option<u32>)
    ensures
        width == spec_tray_width(line@),
{
    match match_first_groups(GEOMETRY_PATTERN, line) {
        Some(groups) => reported_width(&groups),
        None => None,
    }
}

/// Takes one line of the helper's output: where it reports a width, the
/// strip has that width from now on; else nothing changes. Returns whether
/// the line reported a width.
pub fn report_line(bar_state: &mut BarState, line: &str) -> (resized: bool)
    ensures
        resized == spec_tray_width(line@) is Some,
        final(bar_state)@ == match spec_tray_width(line@) {
            Some(width) => old(bar_state)@.resize(width),
            None => old(bar_state)@,
        },
{
    match tray_width(line) {
        Some(width) => {
            bar_state.set_width(width);
            true
        },
        None => false,
    }
}

} // verus!
