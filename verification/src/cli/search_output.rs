//! What the `search` command reports.

use vstd::prelude::*;
use crate::text::{u64_to_string, decimal_digits};

verus! {

broadcast use vstd::string::group_string_axioms;

/// The line that announces a search, logged at information level.
pub fn log_started(search_type: &str, query: &str, offset: usize) -> (res: String)
    requires
        offset < usize::MAX,
    ensures
        res@ == "Searching for "@ + search_type@ + " containing '"@ + query@ + "'"@ + if offset > 0 {
            " (starting from #"@ + decimal_digits((offset + 1) as nat) + ")..."@
        } else {
            "..."@
        },
{
    let mut m = String::from_str("Searching for ");
    m.append(search_type);
    m.append(" containing '");
    m.append(query);
    m.append("'");
    if offset > 0 {
        m.append(" (starting from #");
        m.append(u64_to_string((offset + 1) as u64).as_str());
        m.append(")...");
    } else {
        m.append("...");
    }
    m
}

/// The lines that sum up a search, logged at information level: the number shown, where the
/// results started, and whether the limit was reached.
pub fn log_summary(total_displayed: usize, offset: usize, limit: usize) -> (res: Vec<String>)
    requires
        offset < usize::MAX,
    ensures
        res.deep_view() == seq!["Displayed "@ + decimal_digits(total_displayed as nat) + " result(s)"@]
            + (if offset > 0 {
            seq!["  (Starting from result #"@ + decimal_digits((offset + 1) as nat) + ")"@]
        } else {
            Seq::empty()
        }) + (if limit > 0 && total_displayed >= limit {
            seq!["  (Limited to "@ + decimal_digits(limit as nat) + " results)"@]
        } else {
            Seq::empty()
        }),
{
    let mut lines: Vec<String> = Vec::new();
    let mut m = String::from_str("Displayed ");
    m.append(u64_to_string(total_displayed as u64).as_str());
    m.append(" result(s)");
    lines.push(m);
    if offset > 0 {
        let mut s = String::from_str("  (Starting from result #");
        s.append(u64_to_string((offset + 1) as u64).as_str());
        s.append(")");
        lines.push(s);
    }
    if limit > 0 && total_displayed >= limit {
        let mut l = String::from_str("  (Limited to ");
        l.append(u64_to_string(limit as u64).as_str());
        l.append(" results)");
        lines.push(l);
    }
    assert(lines.deep_view() =~= seq!["Displayed "@ + decimal_digits(total_displayed as nat) + " result(s)"@]
        + (if offset > 0 {
        seq!["  (Starting from result #"@ + decimal_digits((offset + 1) as nat) + ")"@]
    } else {
        Seq::empty()
    }) + (if limit > 0 && total_displayed >= limit {
        seq!["  (Limited to "@ + decimal_digits(limit as nat) + " results)"@]
    } else {
        Seq::empty()
    }));
    lines
}

/// The line for a search without results, logged at information level.
pub fn log_no_results(query: &str) -> (res: String)
    ensures
        res@ == "No results found matching '"@ + query@ + "'"@,
{
    let mut m = String::from_str("No results found matching '");
    m.append(query);
    m.append("'");
    m
}

} // verus!
