//! How values cross into the C library's `int` parameters and back.

use vstd::prelude::*;

verus! {

/// A size handed to a state constructor as a C `int`: the low 32 bits of
/// `x`, read as a signed number, as Rust's `as` gives them.
pub fn c_int_from_usize(x: usize) -> (r: i32)
    ensures
        r == x as i32,
        x <= i32::MAX ==> r == x,
{
    x as i32
}

/// A C `int` result widened to `usize` as Rust's `as` does it: a value
/// that is not negative keeps its value.
pub fn usize_from_c_int(v: i32) -> (r: usize)
    ensures
        r == v as usize,
        v >= 0 ==> r == v,
{
    v as usize
}

/// The C `int` that stands for an on/off setting: 1 for on, 0 for off.
pub open spec fn flag_encoding(enable: bool) -> i32 {
    if enable { 1 } else { 0 }
}

/// Encodes an on/off setting for the control call.
pub fn flag_to_c_int(enable: bool) -> (v: i32)
    ensures
        v == flag_encoding(enable),
{
    if enable { 1 } else { 0 }
}

/// Reads an on/off setting that the control call wrote: any value but 0
/// means on.
pub fn flag_from_c_int(v: i32) -> (enable: bool)
    ensures
        enable == (v != 0),
{
    v != 0
}

/// Reading back an encoded setting gives the setting that was encoded.
pub proof fn lemma_flag_round_trip(enable: bool)
    ensures
        (flag_encoding(enable) != 0) == enable,
{
}

} // verus!
