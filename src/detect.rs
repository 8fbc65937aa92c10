use vstd::prelude::*;

use crate::record::{AttributeKind, HistoryRecord};

verus! {

/// Whether a freshly observed value is recorded, given the latest stored record
/// of the same user and attribute kind: with no record, a username is recorded
/// and an avatar is not; with one, the value is recorded exactly when it differs.
pub open spec fn append_decision(
    kind: AttributeKind,
    latest: Option<HistoryRecord>,
    observed: Seq<char>,
) -> bool {
    match latest {
        None => kind == AttributeKind::Username,
        Some(r) => r.value@ != observed,
    }
}

/// Decides append-or-skip for one observation; a pure function of its inputs.
pub fn should_append(kind: AttributeKind, latest: &Option<HistoryRecord>, observed: &String) -> (r:
    bool)
    ensures
        r == append_decision(kind, *latest, observed@),
{
    match latest {
        None => kind == AttributeKind::Username,
        Some(rec) => rec.value != *observed,
    }
}

} // verus!
