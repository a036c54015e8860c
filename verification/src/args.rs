//! The conversion layer: native arguments become value cells.
//!
//! A native argument is converted into a cell before the call; the
//! conversions run in argument order and the first failure aborts the
//! whole marshalling. An unsigned integer above the host's signed range
//! and a string above the host's string capacity have no cell
//! representation and fail to convert.

use vstd::prelude::*;
use vstd::utf8::encode_utf8;
use vstd::slice::slice_to_vec;
use crate::error::{Error, ErrorV};
use crate::zval::{wf_zval, Zval, ZvalV};

verus! {

/// A native argument value the caller may pass to a callable.
#[derive(Debug, PartialEq)]
pub enum Arg {
    Null,
    Bool(bool),
    Long(i64),
    ULong(u64),
    Str(String),
}

/// The cell a native argument converts to, or the failure the
/// conversion layer reports for it.
pub open spec fn marshal_spec(a: Arg) -> Result<ZvalV, ErrorV> {
    match a {
        Arg::Null => Ok(ZvalV::Null),
        Arg::Bool(b) => Ok(ZvalV::Bool(b)),
        Arg::Long(n) => Ok(ZvalV::Long(n)),
        Arg::ULong(n) => if n <= i64::MAX as u64 {
            Ok(ZvalV::Long(n as i64))
        } else {
            Err(ErrorV::IntegerOverflow)
        },
        Arg::Str(s) => if encode_utf8(s@).len() <= i64::MAX {
            Ok(ZvalV::Str(encode_utf8(s@)))
        } else {
            Err(ErrorV::StringTooLong)
        },
    }
}

/// The cells a sequence of arguments converts to, in order; the first
/// failing conversion aborts the rest and is reported alone.
pub open spec fn marshal_seq(args: Seq<Arg>) -> Result<Seq<ZvalV>, ErrorV>
    decreases args.len(),
{
    if args.len() == 0 {
        Ok(Seq::empty())
    } else {
        match marshal_spec(args[0]) {
            Err(e) => Err(e),
            Ok(v) => match marshal_seq(args.drop_first()) {
                Err(e) => Err(e),
                Ok(rest) => Ok(seq![v] + rest),
            },
        }
    }
}

/// Appending an argument marshals the original sequence first and the
/// new argument last.
pub proof fn lemma_marshal_seq_snoc(args: Seq<Arg>, a: Arg)
    ensures
        marshal_seq(args.push(a)) == (match marshal_seq(args) {
            Err(e) => Err(e),
            Ok(pre) => match marshal_spec(a) {
                Err(e) => Err::<Seq<ZvalV>, ErrorV>(e),
                Ok(v) => Ok::<Seq<ZvalV>, ErrorV>(pre.push(v)),
            },
        }),
    decreases args.len(),
{
    let whole = args.push(a);
    assert(whole[0] == if args.len() == 0 { a } else { args[0] });
    if args.len() == 0 {
        assert(whole.drop_first() =~= Seq::<Arg>::empty());
        if marshal_spec(a) is Ok {
            let v = marshal_spec(a)->Ok_0;
            assert(seq![v] + Seq::<ZvalV>::empty() =~= Seq::<ZvalV>::empty().push(v));
        }
    } else {
        assert(whole[0] == args[0]);
        assert(whole.drop_first() =~= args.drop_first().push(a));
        lemma_marshal_seq_snoc(args.drop_first(), a);
        assert(marshal_seq(whole.drop_first()) == marshal_seq(args.drop_first().push(a)));
        assert(marshal_spec(whole[0]) == marshal_spec(args[0]));
        if marshal_spec(args[0]) is Err {
            assert(marshal_seq(whole) == marshal_seq(args));
        }
        if marshal_spec(args[0]) is Ok && marshal_seq(args.drop_first()) is Ok
            && marshal_spec(a) is Ok {
            let v0 = marshal_spec(args[0])->Ok_0;
            let pre = marshal_seq(args.drop_first())->Ok_0;
            let v = marshal_spec(a)->Ok_0;
            assert(seq![v0] + pre.push(v) =~= (seq![v0] + pre).push(v));
        }
    }
}

/// A conversion failure anywhere in a prefix is the failure of the whole
/// sequence: nothing after the first failing argument is marshalled.
pub proof fn lemma_marshal_seq_prefix_error(args: Seq<Arg>, k: int, e: ErrorV)
    requires
        0 <= k <= args.len(),
        marshal_seq(args.subrange(0, k)) == Err::<Seq<ZvalV>, ErrorV>(e),
    ensures
        marshal_seq(args) == Err::<Seq<ZvalV>, ErrorV>(e),
    decreases args.len(),
{
    let prefix = args.subrange(0, k);
    if k == 0 {
        assert(prefix =~= Seq::<Arg>::empty());
    } else {
        assert(prefix[0] == args[0]);
        match marshal_spec(args[0]) {
            Err(_) => {},
            Ok(_) => {
                assert(prefix.drop_first() =~= args.drop_first().subrange(0, k - 1));
                lemma_marshal_seq_prefix_error(args.drop_first(), k - 1, e);
            },
        }
    }
}

/// A sequence of arguments that all convert marshals as a whole.
pub proof fn lemma_marshal_seq_all_ok(args: Seq<Arg>)
    requires
        forall|j: int| 0 <= j < args.len() ==> marshal_spec(#[trigger] args[j]) is Ok,
    ensures
        marshal_seq(args) is Ok,
    decreases args.len(),
{
    if args.len() > 0 {
        let rest = args.drop_first();
        assert forall|j: int| 0 <= j < rest.len() implies marshal_spec(
            #[trigger] rest[j],
        ) is Ok by {
            assert(rest[j] == args[j + 1]);
        }
        lemma_marshal_seq_all_ok(rest);
    }
}

/// The conversion layer reports only conversion failures.
pub proof fn lemma_marshal_seq_error_kind(args: Seq<Arg>)
    ensures
        marshal_seq(args) matches Err(e) ==> (e is IntegerOverflow || e is StringTooLong),
    decreases args.len(),
{
    if args.len() > 0 {
        lemma_marshal_seq_error_kind(args.drop_first());
    }
}

/// A marshalled cell is one the bridge can operate on.
pub proof fn lemma_marshal_wf(a: Arg)
    ensures
        marshal_spec(a) matches Ok(v) ==> wf_zval(v),
{
}

impl Arg {
    /// Convert this argument into a value cell, as the conversion layer
    /// does for each argument of a call.
    pub fn as_zval(&self) -> (r: Result<Zval, Error>)
        ensures
            crate::error::result_view(r) == marshal_spec(*self),
    {
        match self {
            Arg::Null => Ok(Zval::new()),
            Arg::Bool(b) => {
                let mut z = Zval::new();
                z.set_bool(*b);
                Ok(z)
            },
            Arg::Long(n) => {
                let mut z = Zval::new();
                z.set_long(*n);
                Ok(z)
            },
            Arg::ULong(n) => {
                if *n <= i64::MAX as u64 {
                    let mut z = Zval::new();
                    z.set_long(*n as i64);
                    Ok(z)
                } else {
                    Err(Error::IntegerOverflow)
                }
            },
            Arg::Str(s) => {
                let bytes = slice_to_vec(s.as_str().as_bytes());
                if bytes.len() as u64 > i64::MAX as u64 {
                    Err(Error::StringTooLong)
                } else {
                    Ok(Zval::of_bytes(bytes))
                }
            },
        }
    }
}

/// Abstraction of a marshalling outcome.
pub open spec fn cells_result_view(r: Result<Vec<Zval>, Error>) -> Result<Seq<ZvalV>, ErrorV> {
    match r {
        Ok(cells) => Ok(cells.deep_view()),
        Err(e) => Err(e@),
    }
}

/// Convert every argument, in order, into a cell; abort at the first
/// conversion failure and report it alone.
pub fn marshal_args(params: &Vec<Arg>) -> (r: Result<Vec<Zval>, Error>)
    ensures
        cells_result_view(r) == marshal_seq(params@),
        r matches Ok(cells) ==> forall|k: int|
            0 <= k < cells@.len() ==> wf_zval(#[trigger] cells.deep_view()[k]),
{
    let len = params.len();
    let mut out: Vec<Zval> = Vec::new();
    let mut idx: usize = 0;
    proof {
        assert(params@.subrange(0, 0) =~= Seq::<Arg>::empty());
        assert(out.deep_view() =~= Seq::<ZvalV>::empty());
    }
    while idx < len
        invariant
            len == params@.len(),
            0 <= idx <= len,
            marshal_seq(params@.subrange(0, idx as int)) == Ok::<Seq<ZvalV>, ErrorV>(
                out.deep_view(),
            ),
            forall|k: int| 0 <= k < out@.len() ==> wf_zval(#[trigger] out.deep_view()[k]),
        decreases len - idx,
    {
        let ghost prefix = params@.subrange(0, idx as int);
        match params[idx].as_zval() {
            Ok(cell) => {
                proof {
                    lemma_marshal_seq_snoc(prefix, params@[idx as int]);
                    lemma_marshal_wf(params@[idx as int]);
                    assert(prefix.push(params@[idx as int]) =~= params@.subrange(
                        0,
                        idx as int + 1,
                    ));
                }
                out.push(cell);
                proof {
                    assert(out.deep_view() =~= marshal_seq(
                        params@.subrange(0, idx as int + 1),
                    )->Ok_0);
                }
            },
            Err(e) => {
                proof {
                    lemma_marshal_seq_snoc(prefix, params@[idx as int]);
                    assert(prefix.push(params@[idx as int]) =~= params@.subrange(
                        0,
                        idx as int + 1,
                    ));
                    lemma_marshal_seq_prefix_error(params@, idx as int + 1, e@);
                }
                return Err(e);
            },
        }
        idx += 1;
    }
    proof {
        assert(params@.subrange(0, len as int) =~= params@);
    }
    Ok(out)
}

} // verus!
