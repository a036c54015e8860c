//! Construction of callable wrappers and the cell accessors.

use zend_callable::args::Arg;
use zend_callable::callable::ZendCallable;
use zend_callable::error::Error;
use zend_callable::globals::ExecutorGlobals;
use zend_callable::zval::Zval;

fn strpos_cell() -> Zval {
    let mut z = Zval::new();
    z.set_string("strpos");
    z
}

#[test]
fn new_accepts_a_callable_cell() {
    let cell = strpos_cell();
    let wrapper = ZendCallable::new(&cell);
    assert!(wrapper.is_ok());
}

#[test]
fn new_owned_accepts_a_callable_cell() {
    let wrapper = ZendCallable::new_owned(strpos_cell());
    assert!(wrapper.is_ok());
}

#[test]
fn new_rejects_a_non_callable_cell() {
    let mut cell = Zval::new();
    cell.set_long(42);
    let wrapper = ZendCallable::new(&cell);
    assert!(matches!(wrapper, Err(Error::Callable)));
}

#[test]
fn new_owned_rejects_a_non_callable_cell() {
    let mut cell = Zval::new();
    cell.set_bool(true);
    let wrapper = ZendCallable::new_owned(cell);
    assert!(matches!(wrapper, Err(Error::Callable)));
}

#[test]
fn new_rejects_a_null_cell() {
    let cell = Zval::new();
    assert!(matches!(ZendCallable::new(&cell), Err(Error::Callable)));
}

#[test]
fn new_rejects_an_unknown_name_cell() {
    let mut cell = Zval::new();
    cell.set_string("no_function_goes_by_this_name");
    assert!(matches!(ZendCallable::new(&cell), Err(Error::Callable)));
}

#[test]
fn try_from_name_finds_a_registered_builtin() {
    assert!(ZendCallable::try_from_name("strpos").is_ok());
    assert!(ZendCallable::try_from_name("str_contains").is_ok());
}

#[test]
fn try_from_name_rejects_an_unknown_name() {
    let wrapper = ZendCallable::try_from_name("definitely_not_a_real_function_xyz");
    assert!(matches!(wrapper, Err(Error::Callable)));
}

#[test]
fn from_zval_parses_a_callable_cell() {
    let cell = strpos_cell();
    assert!(ZendCallable::from_zval(&cell).is_some());
}

#[test]
fn from_zval_rejects_a_non_callable_cell() {
    let mut cell = Zval::new();
    cell.set_long(7);
    assert!(ZendCallable::from_zval(&cell).is_none());
}

#[test]
fn a_fresh_cell_is_null() {
    let cell = Zval::new();
    assert!(cell.is_null());
    assert_eq!(cell.long(), None);
    assert_eq!(cell.bool_val(), None);
}

#[test]
fn cell_accessors_follow_the_held_value() {
    let mut cell = Zval::new();
    cell.set_long(-3);
    assert_eq!(cell.long(), Some(-3));
    assert!(!cell.is_null());
    cell.set_bool(false);
    assert_eq!(cell.bool_val(), Some(false));
    assert_eq!(cell.long(), None);
}

#[test]
fn a_cloned_cell_behaves_like_the_original() {
    let cell = strpos_cell();
    let copy = cell.clone();
    assert_eq!(cell, copy);
    assert!(ZendCallable::new(&copy).is_ok());
}

#[test]
fn a_borrowed_wrapper_leaves_the_cell_with_the_caller() {
    let cell = strpos_cell();
    {
        let wrapper = ZendCallable::new(&cell).unwrap();
        let mut globals = ExecutorGlobals::new();
        let r = wrapper.try_call(&mut globals, &vec![
            Arg::Str(String::from("abc")),
            Arg::Str(String::from("b")),
        ]);
        assert!(r.is_ok());
    }
    // The caller still owns the cell and may wrap it again.
    assert!(ZendCallable::new(&cell).is_ok());
}
