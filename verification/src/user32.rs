//! The legacy system-parameter surface: marshaling and result translation
//! for the global wallpaper get/set call.
//!
//! The native call itself takes an operation code and a nul-terminated wide
//! buffer and answers with a boolean return value; the functions here prepare
//! the buffer it is handed, read the buffer it fills, and translate its
//! return value, so that the caller that makes the native call only moves
//! values across.

use vstd::prelude::*;
use crate::wide::make_nul_terminated;
use crate::wide::prefix_before_nul;
use crate::wide::utf16_units_of;
use crate::wide::wide_prefix_before_nul;
use crate::wide::wide_units_of_str;

verus! {

/// Size of the buffer that the get call fills: the largest path the native
/// call writes, terminator included.
pub const WALLPAPER_BUF_LEN: usize = 260;

/// What can go wrong around the system-parameter call.
#[derive(Clone, Copy, Debug, PartialEq, Eq, Structural)]
pub enum Error {
    /// The native call failed; holds the operating-system error code.
    IOError(i32),
    /// The path held an interior nul unit; holds the position of the first.
    NulError(usize),
    /// The filled buffer held no nul terminator.
    MissingNulError,
}

/// Translates the boolean return value of the system-parameter call: any
/// value but the native true is a failure and carries the reported code.
pub fn check_result(result: i32) -> (r: Result<(), Error>)
    ensures
        (r is Ok <==> result == 1),
        r matches Err(e) ==> e == Error::IOError(result),
{
    if result == 1 {
        Ok(())
    } else {
        Err(Error::IOError(result))
    }
}

/// Prepares a wallpaper path, given as its UTF-16 code units, for the set
/// call: rejects interior nul units and appends the terminator.
pub fn prepare_wallpaper_path(units: &Vec<u16>) -> (r: Result<Vec<u16>, Error>)
    ensures
        (r is Ok <==> !units@.contains(0)),
        r matches Ok(t) ==> t@ == units@.push(0u16),
        r matches Err(e) ==> (e matches Error::NulError(p) && p < units@.len() && units@[
        p as int] == 0 && (forall|i: int| 0 <= i < p ==> units@[i] != 0)),
{
    match make_nul_terminated(units) {
        Ok(t) => Ok(t),
        Err(p) => Err(Error::NulError(p)),
    }
}

/// Prepares a wallpaper path, given as a string, for the set call: encodes it
/// to UTF-16 and terminates it as `prepare_wallpaper_path` does.
pub fn prepare_wallpaper_path_str(path: &str) -> (r: Result<Vec<u16>, Error>)
    ensures
        (r is Ok <==> !utf16_units_of(path@).contains(0)),
        r matches Ok(t) ==> t@ == utf16_units_of(path@).push(0u16),
        r matches Err(e) ==> (e matches Error::NulError(p) && p < utf16_units_of(path@).len()
            && utf16_units_of(path@)[p as int] == 0 && (forall|i: int|
            0 <= i < p ==> utf16_units_of(path@)[i] != 0)),
{
    let units = wide_units_of_str(path);
    prepare_wallpaper_path(&units)
}

/// Reads the buffer that the get call filled: the path is what stands before
/// the first nul unit, and a buffer without one is rejected.
pub fn parse_wallpaper_buffer(buf: &Vec<u16>) -> (r: Result<Vec<u16>, Error>)
    ensures
        (r is Ok <==> buf@.contains(0)),
        r matches Ok(p) ==> prefix_before_nul(buf@, p@),
        r matches Err(e) ==> e == Error::MissingNulError,
{
    match wide_prefix_before_nul(buf) {
        Some(p) => Ok(p),
        None => Err(Error::MissingNulError),
    }
}

} // verus!
