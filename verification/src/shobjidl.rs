//! The per-monitor COM surface: marshaling and result translation for the
//! desktop wallpaper interface.
//!
//! Each method of the native interface takes nul-terminated wide strings and
//! raw integer codes and answers with a result code; the functions here
//! prepare those arguments, translate the result code, and (with the models
//! in `desktop_wallpaper`) decode what the interface hands back, so that the
//! caller that makes the native calls only moves values across.

use vstd::prelude::*;
use crate::wide::make_nul_terminated;
use crate::wide::utf16_units_of;
use crate::wide::wide_units_of_str;

verus! {

/// What can go wrong around the COM interface.
#[derive(Clone, Copy, Debug, PartialEq, Eq, Structural)]
pub enum Error {
    /// A native call failed; holds the returned result code.
    IOError(i32),
    /// A wide string held an interior nul unit; holds the position of the
    /// first.
    NulError(usize),
}

/// Translates a COM result code: non-negative codes denote success, and a
/// negative code is carried as the failure.
pub fn check_result(result: i32) -> (r: Result<(), Error>)
    ensures
        (r is Ok <==> result >= 0),
        r matches Err(e) ==> e == Error::IOError(result),
{
    if result >= 0 {
        Ok(())
    } else {
        Err(Error::IOError(result))
    }
}

/// Marshals a wide string, given as its UTF-16 code units, for a native
/// argument: rejects interior nul units and appends the terminator.
pub fn marshal_wide(units: &Vec<u16>) -> (r: Result<Vec<u16>, Error>)
    ensures
        (r is Ok <==> !units@.contains(0)),
        r matches Ok(t) ==> t@ == units@.push(0u16),
        r matches Err(e) ==> (e matches Error::NulError(p) && p < units@.len() && units@[
        p as int] == 0 && (forall|i: int| 0 <= i < p ==> units@[i] != 0)),
{
    match make_nul_terminated(units) {
        Ok(t) => Ok(t),
        Err(p) => Err(Error::NulError(p)),
    }
}

/// Marshals a wide string, given as a string, for a native argument: encodes
/// it to UTF-16 and terminates it as `marshal_wide` does.
pub fn marshal_wide_str(s: &str) -> (r: Result<Vec<u16>, Error>)
    ensures
        (r is Ok <==> !utf16_units_of(s@).contains(0)),
        r matches Ok(t) ==> t@ == utf16_units_of(s@).push(0u16),
        r matches Err(e) ==> (e matches Error::NulError(p) && p < utf16_units_of(s@).len()
            && utf16_units_of(s@)[p as int] == 0 && (forall|i: int|
            0 <= i < p ==> utf16_units_of(s@)[i] != 0)),
{
    let units = wide_units_of_str(s);
    marshal_wide(&units)
}

/// Marshals an optional monitor identifier: absence stands for "all
/// monitors" and is passed through, presence is marshaled as `marshal_wide`.
pub fn marshal_optional_wide(units: &Option<Vec<u16>>) -> (r: Result<Option<Vec<u16>>, Error>)
    ensures
        units is None ==> r == Ok::<Option<Vec<u16>>, Error>(None::<Vec<u16>>),
        units matches Some(u) ==> {
            &&& (r is Ok <==> !u@.contains(0))
            &&& (r matches Ok(t) ==> t matches Some(tv) && tv@ == u@.push(0u16))
            &&& (r matches Err(e) ==> (e matches Error::NulError(p) && p < u@.len() && u@[
            p as int] == 0 && (forall|i: int| 0 <= i < p ==> u@[i] != 0)))
        },
{
    match units {
        None => Ok(None),
        Some(u) => {
            match marshal_wide(u) {
                Ok(t) => Ok(Some(t)),
                Err(e) => Err(e),
            }
        },
    }
}

} // verus!
