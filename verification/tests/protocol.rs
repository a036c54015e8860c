//! The invocation protocol: marshalling, the bridge, status codes and
//! the pending-exception slot.

use zend_callable::args::Arg;
use zend_callable::callable::ZendCallable;
use zend_callable::error::Error;
use zend_callable::globals::ExecutorGlobals;

fn two_strings(a: &str, b: &str) -> Vec<Arg> {
    vec![Arg::Str(String::from(a)), Arg::Str(String::from(b))]
}

#[test]
fn strpos_finds_a_substring() {
    let strpos = ZendCallable::try_from_name("strpos").unwrap();
    let mut globals = ExecutorGlobals::new();
    let result = strpos.try_call(&mut globals, &two_strings("hello", "e")).unwrap();
    assert_eq!(result.long(), Some(1));
    assert_eq!(globals.invocations(), 1);
}

#[test]
fn strpos_reports_the_first_occurrence() {
    let strpos = ZendCallable::try_from_name("strpos").unwrap();
    let mut globals = ExecutorGlobals::new();
    let result = strpos.try_call(&mut globals, &two_strings("banana", "na")).unwrap();
    assert_eq!(result.long(), Some(2));
}

#[test]
fn strpos_returns_false_when_absent() {
    let strpos = ZendCallable::try_from_name("strpos").unwrap();
    let mut globals = ExecutorGlobals::new();
    let result = strpos.try_call(&mut globals, &two_strings("hello", "z")).unwrap();
    assert_eq!(result.bool_val(), Some(false));
    assert_eq!(result.long(), None);
}

#[test]
fn strpos_finds_an_empty_needle_at_the_start() {
    let strpos = ZendCallable::try_from_name("strpos").unwrap();
    let mut globals = ExecutorGlobals::new();
    let result = strpos.try_call(&mut globals, &two_strings("hello", "")).unwrap();
    assert_eq!(result.long(), Some(0));
}

#[test]
fn str_contains_answers_membership() {
    let contains = ZendCallable::try_from_name("str_contains").unwrap();
    let mut globals = ExecutorGlobals::new();
    let found = contains.try_call(&mut globals, &two_strings("hello", "ell")).unwrap();
    assert_eq!(found.bool_val(), Some(true));
    let missing = contains.try_call(&mut globals, &two_strings("hello", "xyz")).unwrap();
    assert_eq!(missing.bool_val(), Some(false));
    assert_eq!(globals.invocations(), 2);
}

#[test]
fn a_raising_call_reports_the_exception_and_clears_the_slot() {
    let strpos = ZendCallable::try_from_name("strpos").unwrap();
    let mut globals = ExecutorGlobals::new();
    let result = strpos.try_call(&mut globals, &vec![Arg::Long(1), Arg::Long(2)]);
    assert!(matches!(result, Err(Error::Exception(_))));
    // Taken exactly once: the slot is already clear.
    assert!(globals.peek_exception().is_none());
    assert!(globals.take_exception().is_none());
    assert_eq!(globals.invocations(), 1);
}

#[test]
fn a_wrong_arity_call_raises() {
    let strpos = ZendCallable::try_from_name("strpos").unwrap();
    let mut globals = ExecutorGlobals::new();
    let result = strpos.try_call(&mut globals, &vec![Arg::Str(String::from("hello"))]);
    assert!(matches!(result, Err(Error::Exception(_))));
    assert!(globals.peek_exception().is_none());
}

#[test]
fn marshalling_fails_on_an_oversized_unsigned_argument() {
    let strpos = ZendCallable::try_from_name("strpos").unwrap();
    let mut globals = ExecutorGlobals::new();
    let args = vec![
        Arg::Str(String::from("hello")),
        Arg::ULong(u64::MAX),
        Arg::Str(String::from("e")),
    ];
    let result = strpos.try_call(&mut globals, &args);
    assert!(matches!(result, Err(Error::IntegerOverflow)));
    // The failure aborted before the foreign call: the bridge was never
    // entered and no exception was raised.
    assert_eq!(globals.invocations(), 0);
    assert!(globals.peek_exception().is_none());
}

#[test]
fn an_unsigned_argument_in_range_converts() {
    let strpos = ZendCallable::try_from_name("strpos").unwrap();
    let mut globals = ExecutorGlobals::new();
    // Two integer cells reach the builtin, which raises a type error:
    // the conversion itself succeeded and the bridge ran.
    let result = strpos.try_call(&mut globals, &vec![Arg::ULong(3), Arg::Long(4)]);
    assert!(matches!(result, Err(Error::Exception(_))));
    assert_eq!(globals.invocations(), 1);
}

#[test]
fn borrowed_and_owned_wrappers_agree() {
    let mut cell = zend_callable::zval::Zval::new();
    cell.set_string("strpos");
    let borrowed = ZendCallable::new(&cell).unwrap();
    let owned = ZendCallable::new_owned(cell.clone()).unwrap();
    let cases = vec![
        two_strings("hello", "e"),
        two_strings("hello", "z"),
        vec![Arg::Long(1), Arg::Long(2)],
        vec![Arg::ULong(u64::MAX)],
        vec![],
    ];
    for args in cases {
        let mut globals_b = ExecutorGlobals::new();
        let mut globals_o = ExecutorGlobals::new();
        let through_borrowed = borrowed.try_call(&mut globals_b, &args);
        let through_owned = owned.try_call(&mut globals_o, &args);
        assert_eq!(through_borrowed, through_owned);
        assert_eq!(globals_b.invocations(), globals_o.invocations());
        assert_eq!(
            globals_b.peek_exception().is_none(),
            globals_o.peek_exception().is_none()
        );
    }
}

#[test]
fn a_fresh_executor_has_nothing_pending() {
    let mut globals = ExecutorGlobals::new();
    assert!(globals.peek_exception().is_none());
    assert!(globals.take_exception().is_none());
    assert_eq!(globals.invocations(), 0);
}

#[test]
fn find_first_reports_the_earliest_position() {
    let haystack: Vec<u8> = b"abracadabra".to_vec();
    let needle: Vec<u8> = b"abra".to_vec();
    assert_eq!(zend_callable::bytefind::find_first(&haystack, &needle), Some(0));
    let inner: Vec<u8> = b"cad".to_vec();
    assert_eq!(zend_callable::bytefind::find_first(&haystack, &inner), Some(4));
    let absent: Vec<u8> = b"zebra".to_vec();
    assert_eq!(zend_callable::bytefind::find_first(&haystack, &absent), None);
}
