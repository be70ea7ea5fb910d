//! Reading command-line arguments.

use vstd::prelude::*;
use crate::text::{chars_of, split_chars, split_spec, parse_u64, parse_u64_spec, u64_to_string, decimal_digits, lemma_split_nonempty};

verus! {

broadcast use vstd::string::group_string_axioms;

/// The outcome of reading a range `start-end` of the given kind.
pub open spec fn range_result(range: Seq<char>, kind: Seq<char>) -> Result<(u64, u64), Seq<char>> {
    let parts = split_spec(range, '-');
    if parts.len() != 2 {
        Err("Invalid "@ + kind + " range format. Expected 'start-end', got '"@ + range + "'"@)
    } else {
        match (parse_u64_spec(parts[0]), parse_u64_spec(parts[1])) {
            (None, _) => Err("Invalid start "@ + kind + ": '"@ + parts[0] + "'"@),
            (Some(_), None) => Err("Invalid end "@ + kind + ": '"@ + parts[1] + "'"@),
            (Some(s), Some(e)) => if s > e {
                Err("Start "@ + kind + " ("@ + decimal_digits(s as nat) + ") cannot be greater than end "@ + kind + " ("@
                    + decimal_digits(e as nat) + ")"@)
            } else {
                Ok((s, e))
            },
        }
    }
}

/// Reads a range `start-end` of numbers; the error names the kind of range.
pub fn parse_range(range_str: &str, range_type: &str) -> (res: Result<(u64, u64), String>)
    ensures
        match range_result(range_str@, range_type@) {
            Ok(p) => res == Ok::<(u64, u64), String>(p),
            Err(m) => res matches Err(e) && e@ == m,
        },
{
    let cs = chars_of(range_str);
    let parts = split_chars(&cs, '-');
    proof {
        lemma_split_nonempty(range_str@, '-');
    }
    assert(parts.deep_view().len() == parts@.len());
    if parts.len() != 2 {
        let mut m = String::from_str("Invalid ");
        m.append(range_type);
        m.append(" range format. Expected 'start-end', got '");
        m.append(range_str);
        m.append("'");
        return Err(m);
    }
    assert(parts@[0]@ == split_spec(range_str@, '-')[0]);
    assert(parts@[1]@ == split_spec(range_str@, '-')[1]);
    let start = match parse_u64(parts[0].as_str()) {
        Some(s) => s,
        None => {
            let mut m = String::from_str("Invalid start ");
            m.append(range_type);
            m.append(": '");
            m.append(parts[0].as_str());
            m.append("'");
            return Err(m);
        },
    };
    let end = match parse_u64(parts[1].as_str()) {
        Some(e) => e,
        None => {
            let mut m = String::from_str("Invalid end ");
            m.append(range_type);
            m.append(": '");
            m.append(parts[1].as_str());
            m.append("'");
            return Err(m);
        },
    };
    if start > end {
        let mut m = String::from_str("Start ");
        m.append(range_type);
        m.append(" (");
        m.append(u64_to_string(start).as_str());
        m.append(") cannot be greater than end ");
        m.append(range_type);
        m.append(" (");
        m.append(u64_to_string(end).as_str());
        m.append(")");
        return Err(m);
    }
    Ok((start, end))
}

} // verus!
