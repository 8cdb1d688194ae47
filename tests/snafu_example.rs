use std::sync::Arc;
use error_boundary::failure::Failure;
use error_boundary::snafu_example::{raise_public_error, InternalError, PublicError};

#[test]
fn snafu_example_clone() {
    let result = raise_public_error();

    let cloned = result.clone();

    println!("{:?}", cloned);
}

#[test]
fn snafu_raise_renders_cause_kind() {
    let err = raise_public_error().unwrap_err();
    assert_eq!(err.description(), "Public Error: FooBar");
    assert_eq!(err.kind(), "FredBob");
    assert_eq!(err.cause_description(), Some("This is my internal error".to_string()));
    let PublicError::FredBob { source } = &err;
    assert!(matches!(**source, InternalError::FooBar));
}

#[test]
fn snafu_duplicate_renders_alike() {
    let err = raise_public_error().unwrap_err();
    let dup = err.clone();
    assert_eq!(err.description(), dup.description());
    assert_eq!(err.cause_description(), dup.cause_description());
}

#[test]
fn snafu_duplicate_shares_cause() {
    let err = raise_public_error().unwrap_err();
    let PublicError::FredBob { source } = &err;
    assert_eq!(Arc::strong_count(source), 1);
    let dups: Vec<PublicError> = vec![err.clone(), err.clone(), err.clone()];
    assert_eq!(Arc::strong_count(source), 4);
    for d in &dups {
        let PublicError::FredBob { source: other } = d;
        assert!(Arc::ptr_eq(source, other));
    }
    drop(dups);
    assert_eq!(Arc::strong_count(source), 1);
}

#[test]
fn snafu_conversion_wraps_input() {
    let p = PublicError::from(InternalError::FooBar);
    assert_eq!(p.description(), "Public Error: FooBar");
    assert_eq!(p.cause_description(), Some("This is my internal error".to_string()));
    let q: PublicError = InternalError::FooBar.into();
    assert_eq!(q.description(), p.description());
}

#[test]
fn snafu_internal_describes_itself() {
    let e = InternalError::FooBar;
    assert_eq!(e.kind(), "FooBar");
    assert_eq!(e.description(), "This is my internal error");
    assert_eq!(e.cause_description(), None);
}

#[test]
fn snafu_raise_twice_renders_alike() {
    let a = raise_public_error().unwrap_err();
    let b = raise_public_error().unwrap_err();
    assert_eq!(a.description(), b.description());
    assert_eq!(a.cause_description(), b.cause_description());
}
