//! Shared formatting of drift findings and joined failure messages.

use vstd::prelude::*;
use vstd::string::StringExecFns;
use crate::drift_types::DriftType;

verus! {

/// What a formatted drift message looks like:
/// `[KIND] at location - message`.
pub open spec fn spec_format_drift_error(
    drift_type: DriftType,
    location: Seq<char>,
    message: Seq<char>,
) -> Seq<char> {
    "["@ + drift_type.spec_name() + "] at "@ + location + " - "@ + message
}

/// Formats one classified drift finding for reporting.
pub fn format_drift_error(drift_type: DriftType, location: &str, message: &str) -> (r: String)
    ensures
        r@ == spec_format_drift_error(drift_type, location@, message@),
{
    let mut s = String::new();
    s.append("[");
    s.append(drift_type.as_str());
    s.append("] at ");
    s.append(location);
    s.append(" - ");
    s.append(message);
    s
}

/// Where a finding points inside a validated value: the location prefix on
/// its own for a finding at the root, else the prefix followed by the
/// instance path.
pub open spec fn spec_format_instance_location(
    instance_path: Seq<char>,
    prefix: Seq<char>,
) -> Seq<char> {
    if instance_path.len() == 0 {
        prefix
    } else {
        prefix + instance_path
    }
}

/// Formats the instance location of a structural finding.
pub fn format_instance_location(instance_path: &str, prefix: &str) -> (r: String)
    ensures
        r@ == spec_format_instance_location(instance_path@, prefix@),
{
    if instance_path.unicode_len() == 0 {
        prefix.to_owned()
    } else {
        let mut s = String::new();
        s.append(prefix);
        s.append(instance_path);
        s
    }
}

/// The messages of a failure report joined with `"; "`.
pub open spec fn spec_join_messages(parts: Seq<Seq<char>>) -> Seq<char>
    decreases parts.len(),
{
    if parts.len() == 0 {
        Seq::empty()
    } else if parts.len() == 1 {
        parts[0]
    } else {
        spec_join_messages(parts.drop_last()) + "; "@ + parts.last()
    }
}

/// Joins failure messages with `"; "`.
pub fn join_messages(items: &Vec<String>) -> (r: String)
    ensures
        r@ == spec_join_messages(items@.map_values(|s: String| s@)),
{
    let ghost parts = items@.map_values(|s: String| s@);
    let mut s = String::new();
    let mut i: usize = 0;
    while i < items.len()
        invariant
            i <= items.len(),
            parts == items@.map_values(|s: String| s@),
            s@ == spec_join_messages(parts.take(i as int)),
        decreases items.len() - i,
    {
        if i > 0 {
            s.append("; ");
        }
        s.append(items[i].as_str());
        proof {
            assert(parts.take(i + 1).drop_last() =~= parts.take(i as int));
            assert(parts.take(i + 1).last() == parts[i as int]);
            assert(s@ =~= spec_join_messages(parts.take(i + 1)));
        }
        i = i + 1;
    }
    proof {
        assert(parts.take(items@.len() as int) =~= parts);
    }
    s
}

} // verus!
