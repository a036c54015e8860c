//! The callable wrapper and its invocation protocol.
//!
//! A wrapper is constructed from an existing cell (borrowing it), from
//! an owned cell (taking it over), or from a function name (building a
//! fresh name cell). Construction succeeds exactly when the cell is
//! callable. An invocation re-validates the cell, marshals the native
//! arguments in order, bound-checks the argument count, drives the
//! invocation bridge, and translates the status code and the
//! pending-exception slot into one typed outcome.

use vstd::prelude::*;
use vstd::utf8::encode_utf8;
use crate::args::{marshal_args, marshal_seq, Arg};
use crate::bridge::{call_user_function, spec_invoke};
use crate::builtins::is_builtin_name;
use crate::error::{result_view, Error, ErrorV};
use crate::globals::{ExecutorGlobals, GlobalsV};
use crate::zval::{is_callable_v, Zval, ZvalV};

verus! {

/// A container for a cell: either a non-owning reference to a
/// caller-owned cell, or an owned cell the container must release.
#[derive(Debug)]
enum OwnedZval<'a> {
    Reference(&'a Zval),
    Owned(Zval),
}

impl<'a> OwnedZval<'a> {
    spec fn cell(&self) -> ZvalV {
        match self {
            OwnedZval::Reference(z) => z@,
            OwnedZval::Owned(z) => z@,
        }
    }

    fn as_ref(&self) -> (r: &Zval)
        ensures
            r@ == self.cell(),
    {
        match self {
            OwnedZval::Reference(z) => *z,
            OwnedZval::Owned(z) => z,
        }
    }
}

/// Wraps a callable cell of the host runtime. The wrapper either
/// borrows the cell from the caller or owns it exclusively; the variant
/// is fixed for the wrapper's lifetime. At construction the cell
/// satisfied the host's callable predicate; the predicate is checked
/// again immediately before every invocation.
#[derive(Debug)]
pub struct ZendCallable<'a>(OwnedZval<'a>);

/// The outcome of one invocation: the native result and the executor
/// state after the call.
pub ghost struct CallOutcome {
    pub result: Result<ZvalV, ErrorV>,
    pub globals: GlobalsV,
}

/// The invocation protocol, as one function of the wrapped cell's
/// value, the executor state before the call, and the native arguments.
/// In order: a cell that is no longer callable fails without a foreign
/// call; a conversion failure of the first failing argument aborts
/// without a foreign call; an argument count above the bridge's
/// unsigned 32-bit bound fails without a foreign call; then the bridge
/// runs, a negative status is an engine-level rejection, a pending
/// exception is taken (clearing the slot) and reported, and otherwise
/// the bridge's output cell is the result.
pub open spec fn spec_try_call(callable: ZvalV, g: GlobalsV, args: Seq<Arg>) -> CallOutcome {
    if !is_callable_v(callable) {
        CallOutcome { result: Err(ErrorV::Callable), globals: g }
    } else {
        match marshal_seq(args) {
            Err(e) => CallOutcome { result: Err(e), globals: g },
            Ok(cells) => if args.len() > u32::MAX {
                CallOutcome { result: Err(ErrorV::IntegerOverflow), globals: g }
            } else {
                let out = spec_invoke(g, callable, cells);
                if out.status < 0 {
                    CallOutcome { result: Err(ErrorV::Callable), globals: out.globals }
                } else {
                    match out.globals.exception {
                        Some(e) => CallOutcome {
                            result: Err(ErrorV::Exception(e)),
                            globals: GlobalsV {
                                exception: None,
                                invocations: out.globals.invocations,
                            },
                        },
                        None => CallOutcome { result: Ok(out.retval), globals: out.globals },
                    }
                }
            },
        }
    }
}

impl<'a> ZendCallable<'a> {
    /// The wrapped cell's value.
    pub closed spec fn cell(&self) -> ZvalV {
        self.0.cell()
    }

    /// Whether the wrapper only observes a caller-owned cell.
    pub closed spec fn is_borrowed(&self) -> bool {
        self.0 is Reference
    }

    /// Whether the wrapper exclusively owns its cell.
    pub closed spec fn is_owned(&self) -> bool {
        self.0 is Owned
    }

    /// Wrap `callable` without taking its ownership. Succeeds, with a
    /// borrowing wrapper over exactly that cell, iff the cell is
    /// callable.
    pub fn new(callable: &'a Zval) -> (r: Result<Self, Error>)
        ensures
            r is Ok <==> is_callable_v(callable@),
            r matches Ok(w) ==> w.cell() == callable@ && w.is_borrowed(),
            r matches Err(e) ==> e@ == ErrorV::Callable,
    {
        if callable.is_callable() {
            Ok(ZendCallable(OwnedZval::Reference(callable)))
        } else {
            Err(Error::Callable)
        }
    }

    /// Wrap `callable`, taking its ownership. Succeeds, with an owning
    /// wrapper over exactly that cell, iff the cell is callable.
    pub fn new_owned(callable: Zval) -> (r: Result<Self, Error>)
        ensures
            r is Ok <==> is_callable_v(callable@),
            r matches Ok(w) ==> w.cell() == callable@ && w.is_owned(),
            r matches Err(e) ==> e@ == ErrorV::Callable,
    {
        if callable.is_callable() {
            Ok(ZendCallable(OwnedZval::Owned(callable)))
        } else {
            Err(Error::Callable)
        }
    }

    /// Build a name cell holding `name` and wrap it by ownership.
    /// Succeeds iff a callable of that name is registered.
    pub fn try_from_name(name: &str) -> (r: Result<Self, Error>)
        ensures
            r is Ok <==> is_builtin_name(encode_utf8(name@)),
            r matches Ok(w) ==> w.cell() == ZvalV::Str(encode_utf8(name@)) && w.is_owned(),
            r matches Err(e) ==> e@ == ErrorV::Callable,
    {
        let mut callable = Zval::new();
        callable.set_string(name);
        Self::new_owned(callable)
    }

    /// Parse a callable wrapper out of a cell encountered elsewhere:
    /// the borrowing construction, as a fallible conversion.
    pub fn from_zval(zval: &'a Zval) -> (r: Option<Self>)
        ensures
            r is Some <==> is_callable_v(zval@),
            r matches Some(w) ==> w.cell() == zval@ && w.is_borrowed(),
    {
        match Self::new(zval) {
            Ok(w) => Some(w),
            Err(_) => None,
        }
    }

    /// Invoke the callable on `params` under the executor state
    /// `globals`. The outcome, and the executor state left behind, are
    /// exactly those of the invocation protocol.
    pub fn try_call(&self, globals: &mut ExecutorGlobals, params: &Vec<Arg>) -> (r: Result<
        Zval,
        Error,
    >)
        ensures
            ({
                let out = spec_try_call(self.cell(), old(globals)@, params@);
                result_view(r) == out.result && final(globals)@ == out.globals
            }),
    {
        if !self.0.as_ref().is_callable() {
            return Err(Error::Callable);
        }
        let cells = match marshal_args(params) {
            Ok(cells) => cells,
            Err(e) => {
                return Err(e);
            },
        };
        if params.len() as u64 > u32::MAX as u64 {
            return Err(Error::IntegerOverflow);
        }
        let (status, retval) = call_user_function(globals, self.0.as_ref(), &cells);
        if status < 0 {
            Err(Error::Callable)
        } else {
            match globals.take_exception() {
                Some(exception) => Err(Error::Exception(exception)),
                None => Ok(retval),
            }
        }
    }
}

} // verus!
