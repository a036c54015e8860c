//! The host runtime's function table.
//!
//! The modeled host runtime registers a fixed set of builtin functions,
//! addressed by byte-string name. A name-typed cell is callable exactly
//! when its bytes name one of these builtins.

use vstd::prelude::*;
use vstd::utf8::encode_utf8;
use vstd::slice::slice_to_vec;
use crate::bytefind::bytes_equal;

verus! {

/// Byte-string name of the position-of-substring builtin.
pub open spec fn strpos_name() -> Seq<u8> {
    encode_utf8("strpos"@)
}

/// Byte-string name of the substring-membership builtin.
pub open spec fn str_contains_name() -> Seq<u8> {
    encode_utf8("str_contains"@)
}

/// Whether `name` names a function registered in the host's table.
pub open spec fn is_builtin_name(name: Seq<u8>) -> bool {
    name == strpos_name() || name == str_contains_name()
}

/// Whether `name` holds exactly the bytes of the literal `lit`.
pub(crate) fn name_is(name: &Vec<u8>, lit: &str) -> (r: bool)
    ensures
        r == (name@ == encode_utf8(lit@)),
{
    let lit_bytes = slice_to_vec(lit.as_bytes());
    bytes_equal(name, &lit_bytes)
}

/// Whether `name` names a function registered in the host's table.
pub fn is_builtin(name: &Vec<u8>) -> (r: bool)
    ensures
        r == is_builtin_name(name@),
{
    if name_is(name, "strpos") {
        true
    } else {
        name_is(name, "str_contains")
    }
}

} // verus!
