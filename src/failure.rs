//! What every failure of this library offers, the text of a public failure,
//! the operation wrapper that translates at a boundary, and stack capture.
use vstd::prelude::*;
use backtrace::Backtrace;

verus! {

/// A captured call stack; opaque, only rendered for diagnostics.
#[verifier::external_type_specification]
#[verifier::external_body]
pub struct ExBacktrace(Backtrace);

/// Relies on `backtrace::Backtrace::new`: it captures the current call stack
/// and does not fail. Nothing is known of what it captured.
#[verifier::external_body]
pub(crate) fn capture_stack() -> (r: Backtrace) {
    Backtrace::new()
}

/// The text of an optional string.
pub open spec fn text_of(s: Option<String>) -> Option<Seq<char>> {
    match s {
        Some(t) => Some(t@),
        None => None,
    }
}

/// The capability of a failure: a short name for its kind, a description,
/// and possibly the description of a further failure that caused it.
pub trait Failure {
    spec fn kind_view(&self) -> Seq<char>;

    spec fn description_view(&self) -> Seq<char>;

    spec fn cause_view(&self) -> Option<Seq<char>>;

    fn kind(&self) -> (r: String)
        ensures
            r@ == self.kind_view(),
    ;

    fn description(&self) -> (r: String)
        ensures
            r@ == self.description_view(),
    ;

    fn cause_description(&self) -> (r: Option<String>)
        ensures
            text_of(r) == self.cause_view(),
    ;
}

/// How a public failure describes itself: it names the kind of its cause.
pub open spec fn public_rendering(cause_kind: Seq<char>) -> Seq<char> {
    "Public Error: "@ + cause_kind
}

/// The description of a public failure whose cause is `cause`.
pub fn render_public<C: Failure>(cause: &C) -> (r: String)
    ensures
        r@ == public_rendering(cause.kind_view()),
{
    let mut text = String::from_str("Public Error: ");
    let kind = cause.kind();
    text.append(kind.as_str());
    text
}

/// The operation wrapper: a success passes through unchanged, a failure is
/// converted into the failure type of the other side of the boundary.
pub fn cross_boundary<T, I, P: From<I>>(outcome: Result<T, I>) -> (r: Result<T, P>)
    ensures
        match (outcome, r) {
            (Ok(v), Ok(w)) => w == v,
            (Err(e), Err(p)) => call_ensures(P::from, (e,), p),
            _ => false,
        },
{
    match outcome {
        Ok(v) => Ok(v),
        Err(e) => Err(P::from(e)),
    }
}

} // verus!
