//! What the `show` command reports.

use vstd::prelude::*;
use crate::text::{u64_to_string, decimal_digits};
use crate::vcr::join_spec;

verus! {

broadcast use vstd::string::group_string_axioms;

/// The numbers in decimal, joined by `sep`.
pub open spec fn joined_numbers(ns: Seq<u64>, sep: Seq<char>) -> Seq<char> {
    join_spec(ns.map_values(|n: u64| decimal_digits(n as nat)), sep)
}

fn join_numbers(ns: &Vec<u64>, sep: &str) -> (res: String)
    ensures
        res@ == joined_numbers(ns@, sep@),
{
    let ghost parts = ns@.map_values(|n: u64| decimal_digits(n as nat));
    let mut out = String::new();
    let mut i: usize = 0;
    while i < ns.len()
        invariant
            i <= ns@.len(),
            parts == ns@.map_values(|n: u64| decimal_digits(n as nat)),
            out@ == join_spec(parts.take(i as int), sep@),
        decreases ns.len() - i,
    {
        assert(parts.take(i + 1).drop_last() =~= parts.take(i as int));
        if i > 0 {
            out.append(sep);
        }
        out.append(u64_to_string(ns[i]).as_str());
        assert(out@ =~= join_spec(parts.take(i + 1), sep@));
        i = i + 1;
    }
    assert(parts.take(i as int) =~= parts);
    out
}

/// The lines that announce the scrobbles to show, logged at information level.
pub fn log_started(offsets: &Vec<u64>, max_offset: u64) -> (res: Vec<String>)
    ensures
        res.deep_view() == seq![
            "Showing details for scrobbles at offsets: "@ + joined_numbers(offsets@, ", "@),
            "Collecting recent scrobbles to reach offset "@ + decimal_digits(max_offset as nat) + "..."@,
        ],
{
    let mut a = String::from_str("Showing details for scrobbles at offsets: ");
    a.append(join_numbers(offsets, ", ").as_str());
    let mut b = String::from_str("Collecting recent scrobbles to reach offset ");
    b.append(u64_to_string(max_offset).as_str());
    b.append("...");
    let mut lines: Vec<String> = Vec::new();
    lines.push(a);
    lines.push(b);
    assert(lines.deep_view() =~= seq![
        "Showing details for scrobbles at offsets: "@ + joined_numbers(offsets@, ", "@),
        "Collecting recent scrobbles to reach offset "@ + decimal_digits(max_offset as nat) + "..."@,
    ]);
    lines
}

/// The line for one page of collected scrobbles, logged at debug level.
pub fn log_collecting_page(page: u32, scrobbles_found: usize, total_collected: usize) -> (res: String)
    ensures
        res@ == if scrobbles_found > 0 {
            "Page "@ + decimal_digits(page as nat) + ": Found "@ + decimal_digits(scrobbles_found as nat)
                + " scrobbles (total: "@ + decimal_digits(total_collected as nat) + ")"@
        } else {
            "No more scrobbles found on page "@ + decimal_digits(page as nat)
        },
{
    if scrobbles_found > 0 {
        let mut m = String::from_str("Page ");
        m.append(u64_to_string(page as u64).as_str());
        m.append(": Found ");
        m.append(u64_to_string(scrobbles_found as u64).as_str());
        m.append(" scrobbles (total: ");
        m.append(u64_to_string(total_collected as u64).as_str());
        m.append(")");
        m
    } else {
        let mut m = String::from_str("No more scrobbles found on page ");
        m.append(u64_to_string(page as u64).as_str());
        m
    }
}

/// The lines at the end of collection: the total (information level), and the offsets out of
/// reach, in brackets (warning level).
pub fn log_collection_complete(total_scrobbles: usize, unavailable_offsets: &Vec<u64>) -> (res: Vec<String>)
    ensures
        res.deep_view() == seq!["Total scrobbles collected: "@ + decimal_digits(total_scrobbles as nat)]
            + if unavailable_offsets@.len() > 0 {
            seq![
                "The following offsets are not available (you only have "@ + decimal_digits(total_scrobbles as nat)
                    + " scrobbles): ["@ + joined_numbers(unavailable_offsets@, ", "@) + "]"@,
            ]
        } else {
            Seq::empty()
        },
{
    let mut lines: Vec<String> = Vec::new();
    let mut a = String::from_str("Total scrobbles collected: ");
    a.append(u64_to_string(total_scrobbles as u64).as_str());
    lines.push(a);
    if unavailable_offsets.len() > 0 {
        let mut b = String::from_str("The following offsets are not available (you only have ");
        b.append(u64_to_string(total_scrobbles as u64).as_str());
        b.append(" scrobbles): [");
        b.append(join_numbers(unavailable_offsets, ", ").as_str());
        b.append("]");
        lines.push(b);
    }
    assert(lines.deep_view() =~= seq!["Total scrobbles collected: "@ + decimal_digits(total_scrobbles as nat)]
        + if unavailable_offsets@.len() > 0 {
        seq![
            "The following offsets are not available (you only have "@ + decimal_digits(total_scrobbles as nat)
                + " scrobbles): ["@ + joined_numbers(unavailable_offsets@, ", "@) + "]"@,
        ]
    } else {
        Seq::empty()
    });
    lines
}

/// The lines at the end: the offsets that could not be shown (warning level), then how many
/// were shown (information level).
pub fn log_finished(total_shown: usize, unavailable_count: usize) -> (res: Vec<String>)
    ensures
        res.deep_view() == (if unavailable_count > 0 {
            seq!["Could not show "@ + decimal_digits(unavailable_count as nat) + " offset(s) due to insufficient scrobbles"@]
        } else {
            Seq::empty()
        }) + seq!["Finished showing "@ + decimal_digits(total_shown as nat) + " scrobble details"@],
{
    let mut lines: Vec<String> = Vec::new();
    if unavailable_count > 0 {
        let mut a = String::from_str("Could not show ");
        a.append(u64_to_string(unavailable_count as u64).as_str());
        a.append(" offset(s) due to insufficient scrobbles");
        lines.push(a);
    }
    let mut b = String::from_str("Finished showing ");
    b.append(u64_to_string(total_shown as u64).as_str());
    b.append(" scrobble details");
    lines.push(b);
    assert(lines.deep_view() =~= (if unavailable_count > 0 {
        seq!["Could not show "@ + decimal_digits(unavailable_count as nat) + " offset(s) due to insufficient scrobbles"@]
    } else {
        Seq::empty()
    }) + seq!["Finished showing "@ + decimal_digits(total_shown as nat) + " scrobble details"@]);
    lines
}

} // verus!
