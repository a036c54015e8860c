//! The native caller's error model.
//!
//! Every failure of the callable wrapper is returned as a typed outcome;
//! none is swallowed. `Callable` covers a failed callability check and an
//! engine-level rejection by the bridge; `Exception` carries the value the
//! host runtime raised; the two remaining variants are the conversion
//! failures an argument (or the argument count) can produce.

use vstd::prelude::*;
use crate::zval::{Zval, ZvalV};

verus! {

/// Abstract value of an error.
pub ghost enum ErrorV {
    Callable,
    Exception(ZvalV),
    IntegerOverflow,
    StringTooLong,
}

/// An error returned by the callable wrapper.
#[derive(Debug, PartialEq)]
pub enum Error {
    /// The cell was not callable, or the host engine rejected the call.
    Callable,
    /// The host runtime raised this exception while the callable ran.
    Exception(Zval),
    /// An integer argument, or the argument count, exceeded a numeric
    /// bound of the bridge.
    IntegerOverflow,
    /// A string argument was too long for a string cell.
    StringTooLong,
}

impl View for Error {
    type V = ErrorV;

    open spec fn view(&self) -> ErrorV {
        match self {
            Error::Callable => ErrorV::Callable,
            Error::Exception(z) => ErrorV::Exception(z@),
            Error::IntegerOverflow => ErrorV::IntegerOverflow,
            Error::StringTooLong => ErrorV::StringTooLong,
        }
    }
}

impl DeepView for Error {
    type V = ErrorV;

    open spec fn deep_view(&self) -> ErrorV {
        self.view()
    }
}

/// Abstraction of an outcome holding a cell.
pub open spec fn result_view(r: Result<Zval, Error>) -> Result<ZvalV, ErrorV> {
    match r {
        Ok(z) => Ok(z@),
        Err(e) => Err(e@),
    }
}

} // verus!
