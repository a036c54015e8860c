//! Value cells of the host runtime.
//!
//! A cell is an opaque tagged value of the host's dynamic type system.
//! This model carries the kinds the callable wrapper works with: null,
//! booleans, signed integers, and byte strings. Cells are abstracted by
//! [`ZvalV`], and every contract of the crate speaks of cells through
//! that abstraction.

use vstd::prelude::*;
use vstd::utf8::encode_utf8;
use crate::builtins::{is_builtin, is_builtin_name};

verus! {

/// Abstract value of a cell.
pub ghost enum ZvalV {
    Null,
    Bool(bool),
    Long(i64),
    Str(Seq<u8>),
}

/// A cell the invocation bridge can operate on: string payloads fit the
/// host's signed size type, so a substring position is representable as
/// an integer cell.
pub open spec fn wf_zval(v: ZvalV) -> bool {
    match v {
        ZvalV::Str(b) => b.len() <= i64::MAX,
        _ => true,
    }
}

/// Whether the host runtime will invoke the cell as a function: a
/// name-typed cell whose bytes name a registered builtin.
pub open spec fn is_callable_v(v: ZvalV) -> bool {
    match v {
        ZvalV::Str(name) => is_builtin_name(name),
        _ => false,
    }
}

#[derive(Debug, PartialEq)]
pub(crate) enum ZvalInner {
    Null,
    Bool(bool),
    Long(i64),
    Str(Vec<u8>),
}

/// A value cell of the host runtime.
#[derive(Debug, PartialEq)]
pub struct Zval {
    pub(crate) inner: ZvalInner,
}

impl View for Zval {
    type V = ZvalV;

    closed spec fn view(&self) -> ZvalV {
        match self.inner {
            ZvalInner::Null => ZvalV::Null,
            ZvalInner::Bool(b) => ZvalV::Bool(b),
            ZvalInner::Long(n) => ZvalV::Long(n),
            ZvalInner::Str(b) => ZvalV::Str(b@),
        }
    }
}

impl DeepView for Zval {
    type V = ZvalV;

    open spec fn deep_view(&self) -> ZvalV {
        self.view()
    }
}

impl Clone for Zval {
    /// A cloned cell holds the same abstract value.
    fn clone(&self) -> (r: Self)
        ensures
            r@ == self@,
    {
        Zval {
            inner: match &self.inner {
                ZvalInner::Null => ZvalInner::Null,
                ZvalInner::Bool(b) => ZvalInner::Bool(*b),
                ZvalInner::Long(n) => ZvalInner::Long(*n),
                ZvalInner::Str(b) => ZvalInner::Str(vstd::slice::slice_to_vec(b.as_slice())),
            },
        }
    }
}

impl Zval {
    /// A fresh cell, holding null.
    pub fn new() -> (z: Zval)
        ensures
            z@ == ZvalV::Null,
    {
        Zval { inner: ZvalInner::Null }
    }

    /// A cell holding the given bytes as a string value.
    pub(crate) fn of_bytes(bytes: Vec<u8>) -> (z: Zval)
        ensures
            z@ == ZvalV::Str(bytes@),
    {
        Zval { inner: ZvalInner::Str(bytes) }
    }

    /// Make the cell hold the bytes of `val` as a string value.
    pub fn set_string(&mut self, val: &str)
        ensures
            final(self)@ == ZvalV::Str(encode_utf8(val@)),
    {
        self.inner = ZvalInner::Str(vstd::slice::slice_to_vec(val.as_bytes()));
    }

    /// Make the cell hold the integer `val`.
    pub fn set_long(&mut self, val: i64)
        ensures
            final(self)@ == ZvalV::Long(val),
    {
        self.inner = ZvalInner::Long(val);
    }

    /// Make the cell hold the boolean `val`.
    pub fn set_bool(&mut self, val: bool)
        ensures
            final(self)@ == ZvalV::Bool(val),
    {
        self.inner = ZvalInner::Bool(val);
    }

    /// The integer held by the cell, if it holds one.
    pub fn long(&self) -> (r: Option<i64>)
        ensures
            r == (match self@ {
                ZvalV::Long(n) => Some(n),
                _ => None::<i64>,
            }),
    {
        match &self.inner {
            ZvalInner::Long(n) => Some(*n),
            _ => None,
        }
    }

    /// The boolean held by the cell, if it holds one.
    pub fn bool_val(&self) -> (r: Option<bool>)
        ensures
            r == (match self@ {
                ZvalV::Bool(b) => Some(b),
                _ => None::<bool>,
            }),
    {
        match &self.inner {
            ZvalInner::Bool(b) => Some(*b),
            _ => None,
        }
    }

    /// The bytes held by the cell, if it holds a string value.
    pub fn str_bytes(&self) -> (r: Option<&Vec<u8>>)
        ensures
            match r {
                Some(b) => self@ == ZvalV::Str(b@),
                None => !(self@ is Str),
            },
    {
        match &self.inner {
            ZvalInner::Str(b) => Some(b),
            _ => None,
        }
    }

    /// Whether the cell holds null.
    pub fn is_null(&self) -> (r: bool)
        ensures
            r == (self@ is Null),
    {
        match &self.inner {
            ZvalInner::Null => true,
            _ => false,
        }
    }

    /// Whether the host runtime will invoke this cell as a function. The
    /// answer is read from the cell's current value each time it is asked.
    pub fn is_callable(&self) -> (r: bool)
        ensures
            r == is_callable_v(self@),
    {
        match &self.inner {
            ZvalInner::Str(name) => is_builtin(name),
            _ => false,
        }
    }
}

} // verus!
