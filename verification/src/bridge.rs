//! The invocation bridge: the host runtime's single foreign entry point.
//!
//! A call hands the bridge a callable cell, a buffer of argument cells
//! and an output slot, with free-function call semantics (no object
//! context, no named arguments). The bridge returns a signed status:
//! negative means the engine rejected the call; non-negative means the
//! callable ran, possibly leaving a raised exception in the executor's
//! pending-exception slot.

use vstd::prelude::*;
use vstd::utf8::encode_utf8;
use vstd::slice::slice_to_vec;
use crate::builtins::{is_builtin, is_builtin_name, name_is, strpos_name};
use crate::bytefind::{contains_match, find_first, first_match, lemma_first_match_bounds};
use crate::globals::{bumped_count, ExecutorGlobals, GlobalsV};
use crate::zval::{wf_zval, Zval, ZvalV};

verus! {

/// What a builtin does with its arguments: produce a return cell, or
/// raise an exception.
pub ghost enum BuiltinOutcome {
    Ret(ZvalV),
    Throw(ZvalV),
}

/// The exception a builtin raises when it receives other than two
/// arguments.
pub open spec fn arity_error_value() -> ZvalV {
    ZvalV::Str(encode_utf8("ArgumentCountError: exactly 2 arguments are expected"@))
}

/// The exception a builtin raises when an argument is not a string cell.
pub open spec fn type_error_value() -> ZvalV {
    ZvalV::Str(encode_utf8("TypeError: arguments must be strings"@))
}

/// What the builtin named `name` does with `args`. Both registered
/// builtins take exactly two string arguments and raise an exception
/// otherwise; `strpos` returns the position of the second string in the
/// first, or false when absent; `str_contains` returns whether the
/// second string occurs in the first.
pub open spec fn run_builtin(name: Seq<u8>, args: Seq<ZvalV>) -> BuiltinOutcome {
    if args.len() != 2 {
        BuiltinOutcome::Throw(arity_error_value())
    } else {
        match (args[0], args[1]) {
            (ZvalV::Str(h), ZvalV::Str(n)) => if name == strpos_name() {
                match first_match(h, n) {
                    Some(i) => BuiltinOutcome::Ret(ZvalV::Long(i as i64)),
                    None => BuiltinOutcome::Ret(ZvalV::Bool(false)),
                }
            } else {
                BuiltinOutcome::Ret(ZvalV::Bool(contains_match(h, n)))
            },
            _ => BuiltinOutcome::Throw(type_error_value()),
        }
    }
}

/// One bridge call's effect: the status code, the cell written to the
/// output slot, and the executor state after the call.
pub ghost struct InvokeOutcome {
    pub status: i32,
    pub retval: ZvalV,
    pub globals: GlobalsV,
}

/// The bridge's behaviour. Entering the bridge counts one invocation;
/// a cell that is not callable is rejected with a negative status; a
/// raised exception lands in the pending-exception slot with the output
/// slot left null.
pub open spec fn spec_invoke(g: GlobalsV, callable: ZvalV, args: Seq<ZvalV>) -> InvokeOutcome {
    let entered = GlobalsV { exception: g.exception, invocations: bumped_count(g.invocations) };
    match callable {
        ZvalV::Str(name) => if is_builtin_name(name) {
            match run_builtin(name, args) {
                BuiltinOutcome::Ret(v) => InvokeOutcome { status: 0, retval: v, globals: entered },
                BuiltinOutcome::Throw(e) => InvokeOutcome {
                    status: 0,
                    retval: ZvalV::Null,
                    globals: GlobalsV { exception: Some(e), invocations: entered.invocations },
                },
            }
        } else {
            InvokeOutcome { status: -1i32, retval: ZvalV::Null, globals: entered }
        },
        _ => InvokeOutcome { status: -1i32, retval: ZvalV::Null, globals: entered },
    }
}

/// A string cell holding the bytes of `lit`, used as an exception value.
fn exception_cell(lit: &str) -> (z: Zval)
    ensures
        z@ == ZvalV::Str(encode_utf8(lit@)),
{
    Zval::of_bytes(slice_to_vec(lit.as_bytes()))
}

enum Outcome {
    Ret(Zval),
    Throw(Zval),
}

/// Execute the builtin named `name` on a buffer of argument cells.
fn run_builtin_exec(name: &Vec<u8>, args: &Vec<Zval>) -> (o: Outcome)
    requires
        is_builtin_name(name@),
        forall|k: int| 0 <= k < args.deep_view().len() ==> wf_zval(#[trigger] args.deep_view()[k]),
    ensures
        match o {
            Outcome::Ret(v) => run_builtin(name@, args.deep_view()) == BuiltinOutcome::Ret(v@),
            Outcome::Throw(e) => run_builtin(name@, args.deep_view()) == BuiltinOutcome::Throw(
                e@,
            ),
        },
{
    if args.len() != 2 {
        return Outcome::Throw(
            exception_cell("ArgumentCountError: exactly 2 arguments are expected"),
        );
    }
    let h = match args[0].str_bytes() {
        Some(b) => b,
        None => {
            return Outcome::Throw(exception_cell("TypeError: arguments must be strings"));
        },
    };
    let n = match args[1].str_bytes() {
        Some(b) => b,
        None => {
            return Outcome::Throw(exception_cell("TypeError: arguments must be strings"));
        },
    };
    if name_is(name, "strpos") {
        match find_first(h, n) {
            Some(i) => {
                proof {
                    lemma_first_match_bounds(h@, n@, 0, i as int);
                    assert(wf_zval(args.deep_view()[0]));
                }
                let mut z = Zval::new();
                z.set_long(i as i64);
                Outcome::Ret(z)
            },
            None => {
                let mut z = Zval::new();
                z.set_bool(false);
                Outcome::Ret(z)
            },
        }
    } else {
        let present = find_first(h, n).is_some();
        let mut z = Zval::new();
        z.set_bool(present);
        Outcome::Ret(z)
    }
}

/// The foreign entry point: invoke `callable` on the cells of `args`
/// under the executor state `globals`, writing the produced cell into
/// the returned output slot. The returned status is negative exactly
/// when the engine rejected the call.
pub fn call_user_function(globals: &mut ExecutorGlobals, callable: &Zval, args: &Vec<Zval>) -> (r:
    (i32, Zval))
    requires
        forall|k: int| 0 <= k < args.deep_view().len() ==> wf_zval(#[trigger] args.deep_view()[k]),
    ensures
        ({
            let out = spec_invoke(old(globals)@, callable@, args.deep_view());
            r.0 == out.status && r.1@ == out.retval && final(globals)@ == out.globals
        }),
{
    globals.record_invocation();
    let name = match callable.str_bytes() {
        Some(b) => b,
        None => {
            return (-1, Zval::new());
        },
    };
    if !is_builtin(name) {
        return (-1, Zval::new());
    }
    match run_builtin_exec(name, args) {
        Outcome::Ret(v) => (0, v),
        Outcome::Throw(e) => {
            globals.set_exception(e);
            (0, Zval::new())
        },
    }
}

} // verus!
