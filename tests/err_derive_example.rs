use std::sync::Arc;
use error_boundary::err_derive_example::{raise_public_error, InternalError, PublicError};
use error_boundary::failure::Failure;

#[test]
fn err_derive_example_clone() {
    let result = raise_public_error();

    let cloned = result.clone();

    println!("{:?}", cloned);
}

#[test]
fn err_derive_raise_renders_cause_kind() {
    let err = raise_public_error().unwrap_err();
    assert_eq!(err.description(), "Public Error: FooBar");
    assert_eq!(err.kind(), "FredBob");
    assert_eq!(err.cause_description(), Some("This is my internal error.".to_string()));
}

#[test]
fn err_derive_trace_is_shared_with_cause() {
    let err = raise_public_error().unwrap_err();
    let PublicError::FredBob { source, backtrace } = &err;
    let InternalError::FooBar { backtrace: inner } = &**source;
    assert!(Arc::ptr_eq(backtrace, inner));
    assert!(!backtrace.frames().is_empty());
}

#[test]
fn err_derive_duplicate_renders_alike() {
    let err = raise_public_error().unwrap_err();
    let dup = err.clone();
    assert_eq!(err.description(), dup.description());
    assert_eq!(err.cause_description(), dup.cause_description());
}

#[test]
fn err_derive_duplicate_shares_cause() {
    let err = raise_public_error().unwrap_err();
    let PublicError::FredBob { source, backtrace } = &err;
    assert_eq!(Arc::strong_count(source), 1);
    let before = Arc::strong_count(backtrace);
    let dups: Vec<PublicError> = vec![err.clone(), err.clone()];
    assert_eq!(Arc::strong_count(source), 3);
    assert_eq!(Arc::strong_count(backtrace), before + 2);
    for d in &dups {
        let PublicError::FredBob { source: other, backtrace: trace } = d;
        assert!(Arc::ptr_eq(source, other));
        assert!(Arc::ptr_eq(backtrace, trace));
    }
    drop(dups);
    assert_eq!(Arc::strong_count(source), 1);
    assert_eq!(Arc::strong_count(backtrace), before);
}

#[test]
fn err_derive_conversion_keeps_trace() {
    let trace = Arc::new(backtrace::Backtrace::new());
    let input = InternalError::FooBar { backtrace: Arc::clone(&trace) };
    let p = PublicError::from(input);
    assert_eq!(p.description(), "Public Error: FooBar");
    assert_eq!(p.cause_description(), Some("This is my internal error.".to_string()));
    let PublicError::FredBob { backtrace, .. } = &p;
    assert!(Arc::ptr_eq(backtrace, &trace));
}

#[test]
fn err_derive_internal_describes_itself() {
    let e = InternalError::FooBar { backtrace: Arc::new(backtrace::Backtrace::new()) };
    assert_eq!(e.kind(), "FooBar");
    assert_eq!(e.description(), "This is my internal error.");
    assert_eq!(e.cause_description(), None);
}

#[test]
fn err_derive_raise_twice_renders_alike() {
    let a = raise_public_error().unwrap_err();
    let b = raise_public_error().unwrap_err();
    assert_eq!(a.description(), b.description());
    assert_eq!(a.cause_description(), b.cause_description());
}
