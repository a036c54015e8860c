//! Properties of the invocation protocol, stated once over all inputs
//! and proved against the protocol's specification.

use vstd::prelude::*;
use crate::args::{
    lemma_marshal_seq_all_ok, lemma_marshal_seq_error_kind, lemma_marshal_seq_prefix_error,
    lemma_marshal_seq_snoc, marshal_seq, marshal_spec, Arg,
};
use crate::bridge::{run_builtin, BuiltinOutcome};
use crate::builtins::is_builtin_name;
use crate::callable::{spec_try_call, CallOutcome, ZendCallable};
use crate::error::ErrorV;
use crate::globals::{bumped_count, GlobalsV};
use crate::zval::{is_callable_v, ZvalV};

verus! {

/// Success is owed: when the wrapped cell names a registered builtin,
/// no exception is already pending, every argument converts, the count
/// fits the bridge's bound, and the builtin returns rather than raises,
/// the call succeeds with exactly the builtin's return cell.
pub proof fn call_succeeds_when_nothing_fails(name: Seq<u8>, g: GlobalsV, args: Seq<Arg>)
    requires
        is_builtin_name(name),
        g.exception is None,
        args.len() <= u32::MAX,
        marshal_seq(args) matches Ok(cells) && run_builtin(name, cells) matches
            BuiltinOutcome::Ret(_),
    ensures
        spec_try_call(ZvalV::Str(name), g, args).result == Ok::<ZvalV, ErrorV>(
            run_builtin(name, marshal_seq(args)->Ok_0)->Ret_0,
        ),
{
}

/// Once validation, marshalling and the bound check have passed, the
/// bridge is entered exactly once, whatever the call's outcome.
pub proof fn bridge_entered_once(callable: ZvalV, g: GlobalsV, args: Seq<Arg>)
    requires
        is_callable_v(callable),
        marshal_seq(args) is Ok,
        args.len() <= u32::MAX,
    ensures
        spec_try_call(callable, g, args).globals.invocations == bumped_count(g.invocations),
{
}

/// An invocation's outcome depends only on the wrapped cell's value:
/// calling the same underlying callable through a borrowing wrapper and
/// through an owning wrapper over a cell holding the same value gives
/// identical outcomes for identical arguments and identical executor
/// state.
pub proof fn borrowed_and_owned_agree<'a, 'b>(
    borrowed: ZendCallable<'a>,
    owned: ZendCallable<'b>,
    g: GlobalsV,
    args: Seq<Arg>,
)
    requires
        borrowed.is_borrowed(),
        owned.is_owned(),
        borrowed.cell() == owned.cell(),
    ensures
        spec_try_call(borrowed.cell(), g, args) == spec_try_call(owned.cell(), g, args),
{
}

/// A conversion failure aborts the call at the first failing argument:
/// when every argument before position `i` converts and argument `i`
/// does not, the call fails with exactly that argument's failure, and
/// the executor state — its invocation count included — is untouched:
/// the bridge is never entered.
pub proof fn aborts_at_first_bad_argument(callable: ZvalV, g: GlobalsV, args: Seq<Arg>, i: int)
    requires
        is_callable_v(callable),
        0 <= i < args.len(),
        forall|j: int| 0 <= j < i ==> marshal_spec(#[trigger] args[j]) is Ok,
        marshal_spec(args[i]) is Err,
    ensures
        spec_try_call(callable, g, args) == (CallOutcome {
            result: Err(marshal_spec(args[i])->Err_0),
            globals: g,
        }),
{
    let prefix = args.subrange(0, i);
    assert forall|j: int| 0 <= j < prefix.len() implies marshal_spec(
        #[trigger] prefix[j],
    ) is Ok by {
        assert(prefix[j] == args[j]);
    }
    lemma_marshal_seq_all_ok(prefix);
    lemma_marshal_seq_snoc(prefix, args[i]);
    assert(prefix.push(args[i]) =~= args.subrange(0, i + 1));
    lemma_marshal_seq_prefix_error(args, i + 1, marshal_spec(args[i])->Err_0);
}

/// An argument count above the bridge's unsigned 32-bit bound fails
/// the call with the locally produced overflow failure, and the
/// executor state — its invocation count included — is untouched: the
/// bridge is never entered.
pub proof fn aborts_on_argument_count_overflow(callable: ZvalV, g: GlobalsV, args: Seq<Arg>)
    requires
        is_callable_v(callable),
        args.len() > u32::MAX,
        forall|j: int| 0 <= j < args.len() ==> marshal_spec(#[trigger] args[j]) is Ok,
    ensures
        spec_try_call(callable, g, args) == (CallOutcome {
            result: Err(ErrorV::IntegerOverflow),
            globals: g,
        }),
{
    lemma_marshal_seq_all_ok(args);
}

/// A raised exception is reported exactly once: whenever an invocation
/// fails with the runtime's exception, the pending-exception slot is
/// left cleared, so an immediately following look at the slot yields
/// nothing.
pub proof fn exception_taken_once(callable: ZvalV, g: GlobalsV, args: Seq<Arg>)
    ensures
        spec_try_call(callable, g, args).result matches Err(ErrorV::Exception(_))
            ==> spec_try_call(callable, g, args).globals.exception is None,
{
    lemma_marshal_seq_error_kind(args);
}

} // verus!
