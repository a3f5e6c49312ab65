//! Marshaling of wide (UTF-16) strings for the null-terminated buffers that
//! the native wallpaper interfaces exchange.

use vstd::prelude::*;

verus! {

/// Holds when `prefix` is exactly the run of units before the first nul in
/// `full`: it is a prefix of `full`, a nul unit follows it, and no nul unit
/// stands inside it.
pub open spec fn prefix_before_nul(full: Seq<u16>, prefix: Seq<u16>) -> bool {
    &&& prefix.len() < full.len()
    &&& prefix == full.subrange(0, prefix.len() as int)
    &&& full[prefix.len() as int] == 0
    &&& forall|i: int| 0 <= i < prefix.len() ==> prefix[i] != 0
}

/// The UTF-16 code units of a string's characters.
pub uninterp spec fn utf16_units_of(s: Seq<char>) -> Seq<u16>;

/// Relies on str::encode_utf16: the UTF-16 code units of the string, a pure
/// function of its characters.
#[verifier::external_body]
pub(crate) fn wide_units_of_str(s: &str) -> (r: Vec<u16>)
    ensures
        r@ == utf16_units_of(s@),
{
    s.encode_utf16().collect()
}

/// Position of the first nul unit in `units`, if any.
pub fn first_nul_position(units: &Vec<u16>) -> (r: Option<usize>)
    ensures
        (r is Some <==> units@.contains(0)),
        r matches Some(p) ==> p < units@.len() && units@[p as int] == 0
            && (forall|i: int| 0 <= i < p ==> units@[i] != 0),
{
    let mut idx: usize = 0;
    while idx < units.len()
        invariant
            idx <= units@.len(),
            forall|i: int| 0 <= i < idx ==> units@[i] != 0,
        decreases units@.len() - idx,
    {
        if units[idx] == 0 {
            return Some(idx);
        }
        idx += 1;
    }
    None
}

/// Appends the terminating nul unit that the native calls expect.
pub fn proper_to_wide(units: &Vec<u16>) -> (r: Vec<u16>)
    ensures
        r@ == units@.push(0u16),
{
    let mut r: Vec<u16> = Vec::new();
    let mut idx: usize = 0;
    while idx < units.len()
        invariant
            idx <= units@.len(),
            r@ == units@.subrange(0, idx as int),
        decreases units@.len() - idx,
    {
        r.push(units[idx]);
        idx += 1;
    }
    assert(r@ == units@);
    r.push(0u16);
    r
}

/// Checks for an interior nul unit and, when none is found, appends the
/// terminator. On failure returns the position of the first nul unit.
pub fn make_nul_terminated(units: &Vec<u16>) -> (r: Result<Vec<u16>, usize>)
    ensures
        (r is Ok <==> !units@.contains(0)),
        r matches Ok(t) ==> t@ == units@.push(0u16),
        r matches Err(p) ==> p < units@.len() && units@[p as int] == 0
            && (forall|i: int| 0 <= i < p ==> units@[i] != 0),
{
    match first_nul_position(units) {
        Some(p) => Err(p),
        None => Ok(proper_to_wide(units)),
    }
}

/// The units before the first nul in a buffer that holds one, as the native
/// calls fill it.
pub fn wide_prefix_before_nul(units: &Vec<u16>) -> (r: Option<Vec<u16>>)
    ensures
        (r is Some <==> units@.contains(0)),
        r matches Some(p) ==> prefix_before_nul(units@, p@),
{
    match first_nul_position(units) {
        Some(p) => {
            let mut prefix: Vec<u16> = Vec::new();
            let mut idx: usize = 0;
            while idx < p
                invariant
                    idx <= p,
                    p < units@.len(),
                    units@[p as int] == 0,
                    forall|i: int| 0 <= i < p ==> units@[i] != 0,
                    prefix@ == units@.subrange(0, idx as int),
                decreases p - idx,
            {
                prefix.push(units[idx]);
                idx += 1;
            }
            assert(prefix@ == units@.subrange(0, p as int));
            Some(prefix)
        },
        None => None,
    }
}

/// Truncates a nul-terminated buffer at its first nul unit.
///
/// The buffer must hold a nul terminator; a buffer without one is not a
/// well-formed result of the native calls.
pub fn proper_from_wide(units: &Vec<u16>) -> (r: Vec<u16>)
    requires
        units@.contains(0),
    ensures
        prefix_before_nul(units@, r@),
{
    wide_prefix_before_nul(units).unwrap()
}

/// Marshaling round trip: truncating a terminated buffer at its first nul
/// gives back exactly the units that were terminated, provided they held no
/// nul themselves — so a path written by `make_nul_terminated` and read back
/// by `wide_prefix_before_nul` comes back unchanged.
pub proof fn lemma_marshal_round_trip(units: Seq<u16>, prefix: Seq<u16>)
    requires
        !units.contains(0),
        prefix_before_nul(units.push(0u16), prefix),
    ensures
        prefix == units,
{
    let terminated = units.push(0u16);
    assert forall|i: int| 0 <= i < units.len() implies units[i] != 0 by {
        assert(units[i] == 0 ==> units.contains(0));
    }
    if prefix.len() < units.len() {
        assert(terminated[prefix.len() as int] == units[prefix.len() as int]);
        assert(false);
    }
    assert(prefix =~= units);
}

} // verus!
