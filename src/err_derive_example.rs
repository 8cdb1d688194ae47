//! The boundary with failures that carry a stack trace. The trace is captured
//! once, where the failure is raised, and shared by the internal failure and
//! the public one.
use vstd::prelude::*;
use std::sync::Arc;
use backtrace::Backtrace;
use crate::failure::{Failure, capture_stack, cross_boundary, public_rendering, render_public};

verus! {

/// A failure raised inside this module, with the call stack where it arose.
#[derive(Debug)]
pub enum InternalError {
    FooBar { backtrace: Arc<Backtrace> },
}

/// A failure as this module hands it out: it wraps the internal failure that
/// caused it behind a shared handle, and shares that failure's trace.
#[derive(Debug)]
pub enum PublicError {
    FredBob { source: Arc<InternalError>, backtrace: Arc<Backtrace> },
}

impl Clone for InternalError {
    /// Shares the trace; it is not captured again.
    fn clone(&self) -> (r: Self)
        ensures
            r == *self,
    {
        match self {
            InternalError::FooBar { backtrace } => InternalError::FooBar {
                backtrace: Arc::clone(backtrace),
            },
        }
    }
}

impl Clone for PublicError {
    /// Duplicates the handles to the cause and to the trace, never what they
    /// point at.
    fn clone(&self) -> (r: Self)
        ensures
            r == *self,
    {
        match self {
            PublicError::FredBob { source, backtrace } => PublicError::FredBob {
                source: Arc::clone(source),
                backtrace: Arc::clone(backtrace),
            },
        }
    }
}

impl Failure for InternalError {
    open spec fn kind_view(&self) -> Seq<char> {
        match self {
            InternalError::FooBar { .. } => "FooBar"@,
        }
    }

    open spec fn description_view(&self) -> Seq<char> {
        match self {
            InternalError::FooBar { .. } => "This is my internal error."@,
        }
    }

    open spec fn cause_view(&self) -> Option<Seq<char>> {
        None
    }

    fn kind(&self) -> (r: String) {
        match self {
            InternalError::FooBar { .. } => String::from_str("FooBar"),
        }
    }

    fn description(&self) -> (r: String) {
        match self {
            InternalError::FooBar { .. } => String::from_str("This is my internal error."),
        }
    }

    fn cause_description(&self) -> (r: Option<String>) {
        None
    }
}

impl Failure for PublicError {
    open spec fn kind_view(&self) -> Seq<char> {
        match self {
            PublicError::FredBob { .. } => "FredBob"@,
        }
    }

    open spec fn description_view(&self) -> Seq<char> {
        match self {
            PublicError::FredBob { source, .. } => public_rendering(source.kind_view()),
        }
    }

    open spec fn cause_view(&self) -> Option<Seq<char>> {
        match self {
            PublicError::FredBob { source, .. } => Some(source.description_view()),
        }
    }

    fn kind(&self) -> (r: String) {
        match self {
            PublicError::FredBob { .. } => String::from_str("FredBob"),
        }
    }

    fn description(&self) -> (r: String) {
        match self {
            PublicError::FredBob { source, .. } => render_public(&**source),
        }
    }

    fn cause_description(&self) -> (r: Option<String>) {
        match self {
            PublicError::FredBob { source, .. } => Some(source.description()),
        }
    }
}

/// The public failure that an internal failure becomes: its cause is the
/// internal failure, and its trace is the one that the internal failure holds.
pub open spec fn public_of(input: InternalError) -> PublicError {
    match input {
        InternalError::FooBar { backtrace } => PublicError::FredBob {
            source: Arc::new(input),
            backtrace,
        },
    }
}

impl From<InternalError> for PublicError {
    /// The boundary converter: every internal failure maps to a public one
    /// that holds it, unchanged, as its cause, and shares its trace.
    fn from(input: InternalError) -> (r: PublicError)
        ensures
            r == public_of(input),
            r->backtrace == input->backtrace,
            r.cause_view() == Some(input.description_view()),
            r.description_view() == public_rendering(input.kind_view()),
    {
        match input.clone() {
            InternalError::FooBar { backtrace } => PublicError::FredBob {
                source: Arc::new(input),
                backtrace,
            },
        }
    }
}

impl vstd::std_specs::convert::FromSpecImpl<InternalError> for PublicError {
    open spec fn obeys_from_spec() -> bool {
        true
    }

    open spec fn from_spec(input: InternalError) -> PublicError {
        public_of(input)
    }
}

/// The low-level operation; it always fails, with the stack captured here.
fn internal() -> (r: Result<i32, InternalError>)
    ensures
        r is Err,
{
    Err(InternalError::FooBar { backtrace: Arc::new(capture_stack()) })
}

/// Runs the low-level operation and hands out its failure as a public one,
/// whose trace is the one captured where the failure arose.
pub fn raise_public_error() -> (r: Result<i32, PublicError>)
    ensures
        r matches Err(p) && p matches PublicError::FredBob { source, backtrace }
            && *source == (InternalError::FooBar { backtrace }),
        r matches Err(p) && p.description_view() == "Public Error: FooBar"@,
{
    proof {
        reveal_strlit("Public Error: ");
        reveal_strlit("FooBar");
        reveal_strlit("Public Error: FooBar");
        assert("Public Error: "@ + "FooBar"@ =~= "Public Error: FooBar"@);
    }
    cross_boundary(internal())
}

/// A duplicate of a public failure renders as the original does, and reports
/// the same cause.
pub proof fn duplicate_renders_alike(p: PublicError, d: PublicError)
    requires
        cloned(p, d),
    ensures
        d.description_view() == p.description_view(),
        d.cause_view() == p.cause_view(),
{
}

/// A duplicate of a public failure holds the very cause and trace of the
/// original: the handles are duplicated, what they point at is not.
pub proof fn duplicate_shares_cause(p: PublicError, d: PublicError)
    requires
        cloned(p, d),
    ensures
        d->source == p->source,
        d->backtrace == p->backtrace,
{
}

/// Two runs of the operation fail alike and render alike; only the captured
/// traces may differ.
pub proof fn raising_is_deterministic(a: Result<i32, PublicError>, b: Result<i32, PublicError>)
    requires
        call_ensures(raise_public_error, (), a),
        call_ensures(raise_public_error, (), b),
    ensures
        a matches Err(p) && b matches Err(q) && p.description_view() == q.description_view()
            && p.cause_view() == q.cause_view(),
{
}

} // verus!
