//! The outlet record, the error taxonomy, and the spec-level vocabulary that
//! the registry and controller contracts share.

use vstd::prelude::*;

verus! {

/// One switchable channel: a stable identifier, the physical GPIO pin that
/// backs it, and a cache of the last state the controller commanded.
///
/// The `active` flag is a cache, not a reservation: it is trustworthy only
/// immediately after a successful write, since the physical device could be
/// altered out-of-band.
#[derive(Clone, Copy, PartialEq, Eq, Structural, Debug)]
pub struct Outlet {
    pub id: usize,
    pub pin: u8,
    pub active: bool,
}

/// Why a command against an outlet was not carried out.
#[derive(Debug)]
pub enum OutletError {
    /// The request carried no `id` query parameter.
    MissingParameter,
    /// The `id` parameter is present but is not a decimal number that fits
    /// the identifier type.
    MalformedParameter,
    /// The identifier is well-formed but no outlet in the registry has it.
    UnknownOutlet,
    /// The GPIO write itself failed; the text describes the underlying cause
    /// for server-side logging.
    HardwareWriteFailed(String),
}

/// Some outlet in `s` carries the identifier `id`.
pub open spec fn has_id(s: Seq<Outlet>, id: usize) -> bool {
    exists|i: int| 0 <= i < s.len() && s[i].id == id
}

/// Identifiers are pairwise distinct, so lookup by id is well-defined.
pub open spec fn unique_ids(s: Seq<Outlet>) -> bool {
    forall|i: int, j: int| 0 <= i < j < s.len() ==> s[i].id != s[j].id
}

/// `s` with the outlet at position `i` re-commanded to `desired`: its cached
/// flag becomes `desired`, its id and pin stay, every other outlet stays.
pub open spec fn set_active_at(s: Seq<Outlet>, i: int, desired: bool) -> Seq<Outlet>
    recommends
        0 <= i < s.len(),
{
    s.update(i, Outlet { id: s[i].id, pin: s[i].pin, active: desired })
}

/// Re-commanding an outlet touches neither the identifiers nor the pins, so
/// a well-formed registry stays well-formed.
pub proof fn lemma_set_active_preserves_shape(s: Seq<Outlet>, i: int, desired: bool)
    requires
        0 <= i < s.len(),
    ensures
        set_active_at(s, i, desired).len() == s.len(),
        forall|j: int|
            0 <= j < s.len() ==> #[trigger] set_active_at(s, i, desired)[j].id == s[j].id
                && set_active_at(s, i, desired)[j].pin == s[j].pin,
        unique_ids(s) ==> unique_ids(set_active_at(s, i, desired)),
{
    let t = set_active_at(s, i, desired);
    assert forall|j: int| 0 <= j < s.len() implies #[trigger] t[j].id == s[j].id && t[j].pin
        == s[j].pin by {
        if j == i {
            assert(t[j] == Outlet { id: s[i].id, pin: s[i].pin, active: desired });
        }
    }
    if unique_ids(s) {
        assert forall|p: int, q: int| 0 <= p < q < t.len() implies t[p].id != t[q].id by {
            assert(t[p].id == s[p].id);
            assert(t[q].id == s[q].id);
        }
    }
}

/// Law: of two commands against the same outlet, the one applied last
/// determines the final state; the earlier command leaves no trace.
pub proof fn lemma_last_command_wins(s: Seq<Outlet>, i: int, d1: bool, d2: bool)
    requires
        0 <= i < s.len(),
    ensures
        set_active_at(set_active_at(s, i, d1), i, d2) == set_active_at(s, i, d2),
{
    let mid = set_active_at(s, i, d1);
    assert(mid[i].id == s[i].id && mid[i].pin == s[i].pin);
    assert(set_active_at(mid, i, d2) =~= set_active_at(s, i, d2));
}

/// Law: repeating a command is idempotent — issuing the same switch twice
/// yields the state the first one produced.
pub proof fn lemma_command_idempotent(s: Seq<Outlet>, i: int, desired: bool)
    requires
        0 <= i < s.len(),
    ensures
        set_active_at(set_active_at(s, i, desired), i, desired) == set_active_at(s, i, desired),
{
    lemma_last_command_wins(s, i, desired, desired);
}

/// Law: after a command against the outlet at `i`, that outlet reads back as
/// commanded and every other outlet is exactly what it was.
pub proof fn lemma_switch_then_status(s: Seq<Outlet>, i: int, desired: bool)
    requires
        0 <= i < s.len(),
    ensures
        set_active_at(s, i, desired)[i].active == desired,
        set_active_at(s, i, desired)[i].id == s[i].id,
        set_active_at(s, i, desired)[i].pin == s[i].pin,
        forall|j: int|
            0 <= j < s.len() && j != i ==> #[trigger] set_active_at(s, i, desired)[j] == s[j],
{
}

} // verus!
