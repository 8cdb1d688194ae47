//! The boundary with failures that carry no stack trace.
use vstd::prelude::*;
use std::sync::Arc;
use crate::failure::{Failure, cross_boundary, public_rendering, render_public};

verus! {

/// A failure raised inside this module.
#[derive(Debug)]
pub enum InternalError {
    FooBar,
}

/// A failure as this module hands it out: it wraps the internal failure
/// that caused it behind a shared handle.
#[derive(Debug)]
pub enum PublicError {
    FredBob { source: Arc<InternalError> },
}

impl Clone for InternalError {
    fn clone(&self) -> (r: Self)
        ensures
            r == *self,
    {
        match self {
            InternalError::FooBar => InternalError::FooBar,
        }
    }
}

impl Clone for PublicError {
    /// Duplicates the handle to the cause, never the cause itself.
    fn clone(&self) -> (r: Self)
        ensures
            r == *self,
    {
        match self {
            PublicError::FredBob { source } => PublicError::FredBob { source: Arc::clone(source) },
        }
    }
}

impl Failure for InternalError {
    open spec fn kind_view(&self) -> Seq<char> {
        match self {
            InternalError::FooBar => "FooBar"@,
        }
    }

    open spec fn description_view(&self) -> Seq<char> {
        match self {
            InternalError::FooBar => "This is my internal error."@,
        }
    }

    open spec fn cause_view(&self) -> Option<Seq<char>> {
        None
    }

    fn kind(&self) -> (r: String) {
        match self {
            InternalError::FooBar => String::from_str("FooBar"),
        }
    }

    fn description(&self) -> (r: String) {
        match self {
            InternalError::FooBar => String::from_str("This is my internal error."),
        }
    }

    fn cause_description(&self) -> (r: Option<String>) {
        None
    }
}

impl Failure for PublicError {
    open spec fn kind_view(&self) -> Seq<char> {
        match self {
            PublicError::FredBob { .. } => "FredBob"@,
        }
    }

    open spec fn description_view(&self) -> Seq<char> {
        match self {
            PublicError::FredBob { source } => public_rendering(source.kind_view()),
        }
    }

    open spec fn cause_view(&self) -> Option<Seq<char>> {
        match self {
            PublicError::FredBob { source } => Some(source.description_view()),
        }
    }

    fn kind(&self) -> (r: String) {
        match self {
            PublicError::FredBob { .. } => String::from_str("FredBob"),
        }
    }

    fn description(&self) -> (r: String) {
        match self {
            PublicError::FredBob { source } => render_public(&**source),
        }
    }

    fn cause_description(&self) -> (r: Option<String>) {
        match self {
            PublicError::FredBob { source } => Some(source.description()),
        }
    }
}

/// The public failure that an internal failure becomes.
pub open spec fn public_of(input: InternalError) -> PublicError {
    match input {
        InternalError::FooBar => PublicError::FredBob { source: Arc::new(input) },
    }
}

impl From<InternalError> for PublicError {
    /// The boundary converter: every internal failure maps to a public one
    /// that holds it, unchanged, as its cause.
    fn from(input: InternalError) -> (r: PublicError)
        ensures
            r == public_of(input),
            r.cause_view() == Some(input.description_view()),
            r.description_view() == public_rendering(input.kind_view()),
    {
        match input.clone() {
            InternalError::FooBar => PublicError::FredBob { source: Arc::new(input) },
        }
    }
}

impl vstd::std_specs::convert::FromSpecImpl<InternalError> for PublicError {
    open spec fn obeys_from_spec() -> bool {
        true
    }

    open spec fn from_spec(input: InternalError) -> PublicError {
        public_of(input)
    }
}

/// The low-level operation; it always fails.
fn internal() -> (r: Result<i32, InternalError>)
    ensures
        r == Err::<i32, InternalError>(InternalError::FooBar),
{
    Err(InternalError::FooBar)
}

/// Runs the low-level operation and hands out its failure as a public one.
pub fn raise_public_error() -> (r: Result<i32, PublicError>)
    ensures
        r == Err::<i32, PublicError>(public_of(InternalError::FooBar)),
        r matches Err(p) && p.description_view() == "Public Error: FooBar"@,
{
    proof {
        reveal_strlit("Public Error: ");
        reveal_strlit("FooBar");
        reveal_strlit("Public Error: FooBar");
        assert("Public Error: "@ + "FooBar"@ =~= "Public Error: FooBar"@);
    }
    cross_boundary(internal())
}

/// A duplicate of a public failure renders as the original does, and reports
/// the same cause.
pub proof fn duplicate_renders_alike(p: PublicError, d: PublicError)
    requires
        cloned(p, d),
    ensures
        d.description_view() == p.description_view(),
        d.cause_view() == p.cause_view(),
{
}

/// A duplicate of a public failure holds the very cause of the original: the
/// handle is duplicated, the cause is not.
pub proof fn duplicate_shares_cause(p: PublicError, d: PublicError)
    requires
        cloned(p, d),
    ensures
        d->source == p->source,
{
}

/// Two runs of the operation fail alike and render alike.
pub proof fn raising_is_deterministic(a: Result<i32, PublicError>, b: Result<i32, PublicError>)
    requires
        call_ensures(raise_public_error, (), a),
        call_ensures(raise_public_error, (), b),
    ensures
        a matches Err(p) && b matches Err(q) && p.description_view() == q.description_view(),
        a == b,
{
}

} // verus!
