use vstd::prelude::*;

use crate::chain::NonSnafuError;

verus! {

// ---------------------------------------------------------------------------
// Leaf error types
// ---------------------------------------------------------------------------

/// A labeled failure carrying nothing but already-formatted text.
pub struct StringError {
    pub message: String,
}

impl StringError {
    /// Builds the error from the given text.
    pub fn new(message: &str) -> (r: StringError)
        ensures
            r.message@ == message@,
    {
        StringError { message: message.to_owned() }
    }
}

impl Clone for StringError {
    fn clone(&self) -> (r: Self)
        ensures
            r == *self,
    {
        StringError { message: self.message.clone() }
    }
}

/// The dependency's domain failure: it could not reticulate the named item.
pub struct ReticulateError {
    pub item: String,
}

impl Clone for ReticulateError {
    fn clone(&self) -> (r: Self)
        ensures
            r == *self,
    {
        ReticulateError { item: self.item.clone() }
    }
}

/// What the library keeps of a failed I/O attempt: the text the underlying
/// I/O error renders as. The attempt itself happens outside the library.
pub struct IoFailure {
    pub message: String,
}

impl Clone for IoFailure {
    fn clone(&self) -> (r: Self)
        ensures
            r == *self,
    {
        IoFailure { message: self.message.clone() }
    }
}

/// An error that must never be instantiated or used: a compile-time
/// placeholder for a position that can never hold an error. It wraps the
/// uninhabited `core::convert::Infallible`, so no value of it exists and no
/// operation on it can ever be reached.
pub struct NeverError(pub core::convert::Infallible);

// ---------------------------------------------------------------------------
// Type erasure
// ---------------------------------------------------------------------------

/// An owned, type-erased error value: the closed set of foreign error shapes
/// the library can carry stands in for boxing an arbitrary error object.
pub enum BoxedError {
    NonSnafu(NonSnafuError),
    Str(StringError),
    Reticulate(ReticulateError),
    Io(IoFailure),
}

impl Clone for BoxedError {
    fn clone(&self) -> (r: Self)
        ensures
            r == *self,
    {
        match self {
            BoxedError::NonSnafu(e) => BoxedError::NonSnafu(e.clone()),
            BoxedError::Str(e) => BoxedError::Str(e.clone()),
            BoxedError::Reticulate(e) => BoxedError::Reticulate(e.clone()),
            BoxedError::Io(e) => BoxedError::Io(e.clone()),
        }
    }
}

/// A type-erased cause that may be absent: a uniformly-typed chain entry for
/// occurrences with no deeper cause. Absence is a valid, permanent state.
pub struct OptionalBoxedError(pub Option<BoxedError>);

impl OptionalBoxedError {
    /// Wraps a present cause.
    pub fn new(err: BoxedError) -> (r: Self)
        ensures
            r == (OptionalBoxedError(Some(err))),
    {
        OptionalBoxedError(Some(err))
    }
}

impl Default for OptionalBoxedError {
    /// The absent cause.
    fn default() -> (r: Self)
        ensures
            r == (OptionalBoxedError(None)),
    {
        OptionalBoxedError(None)
    }
}

impl Clone for OptionalBoxedError {
    fn clone(&self) -> (r: Self)
        ensures
            r == *self,
    {
        match &self.0 {
            None => OptionalBoxedError(None),
            Some(e) => OptionalBoxedError(Some(e.clone())),
        }
    }
}

impl From<BoxedError> for OptionalBoxedError {
    /// Wraps a present cause, as `new` does.
    fn from(err: BoxedError) -> (r: Self) {
        OptionalBoxedError(Some(err))
    }
}

impl vstd::std_specs::convert::FromSpecImpl<BoxedError> for OptionalBoxedError {
    open spec fn obeys_from_spec() -> bool {
        true
    }

    open spec fn from_spec(err: BoxedError) -> Self {
        OptionalBoxedError(Some(err))
    }
}

// ---------------------------------------------------------------------------
// Optional message
// ---------------------------------------------------------------------------

/// A human-readable message that may be absent; an absent message renders as
/// empty text, never as a placeholder.
pub struct OptionalMessage(pub Option<String>);

impl OptionalMessage {
    /// What this message renders as: its text, or empty text when absent.
    pub open spec fn text_spec(&self) -> Seq<char> {
        match self.0 {
            None => Seq::<char>::empty(),
            Some(m) => m@,
        }
    }

    /// The absent message.
    pub fn none() -> (r: Self)
        ensures
            r == (OptionalMessage(None)),
    {
        OptionalMessage(None)
    }

    /// A present message holding the given text.
    pub fn from(message: &str) -> (r: Self)
        ensures
            r.0 matches Some(m) && m@ == message@,
    {
        OptionalMessage(Some(message.to_owned()))
    }

    /// Renders the message: its text when present, empty text when absent.
    pub fn render(&self) -> (r: String)
        ensures
            r@ == self.text_spec(),
    {
        match &self.0 {
            None => String::new(),
            Some(m) => m.clone(),
        }
    }
}

// ---------------------------------------------------------------------------
// Error capability
// ---------------------------------------------------------------------------

/// One link of a cause chain, as `cause()` hands it out: either a type-erased
/// error or the optional-cause container.
pub enum CauseLink {
    Boxed(BoxedError),
    OptBoxed(OptionalBoxedError),
}

/// The minimal interface every error-like value satisfies: render a
/// human-readable message, optionally hand out the immediately underlying
/// cause, optionally hand out the call-stack snapshot captured when the
/// value was constructed.
///
/// By this library's display convention, a wrapping value's message inlines
/// the message of its immediate cause.
pub trait ErrorCapability: Sized {
    /// What `message()` returns.
    spec fn msg_spec(&self) -> Seq<char>;

    /// What `cause()` returns.
    spec fn cause_spec(&self) -> Option<CauseLink>;

    /// The call-stack snapshot this value carries, if any.
    spec fn trace_spec(&self) -> Option<snafu::Backtrace>;

    /// The message of this value; it never fails.
    fn message(&self) -> (r: String)
        ensures
            r@ == self.msg_spec(),
    ;

    /// The immediately underlying cause; `None` for leaf errors.
    fn cause(&self) -> (r: Option<CauseLink>)
        ensures
            r == self.cause_spec(),
    ;

    /// The call-stack snapshot captured when this value was constructed, if
    /// one was.
    fn trace(&self) -> (r: Option<&snafu::Backtrace>)
        ensures
            r is Some <==> self.trace_spec() is Some,
            r matches Some(t) ==> self.trace_spec() == Some(*t),
    ;
}

impl ErrorCapability for StringError {
    open spec fn msg_spec(&self) -> Seq<char> {
        self.message@
    }

    open spec fn cause_spec(&self) -> Option<CauseLink> {
        None
    }

    open spec fn trace_spec(&self) -> Option<snafu::Backtrace> {
        None
    }

    fn message(&self) -> (r: String) {
        self.message.clone()
    }

    fn cause(&self) -> (r: Option<CauseLink>) {
        None
    }

    fn trace(&self) -> (r: Option<&snafu::Backtrace>) {
        None
    }
}

impl ErrorCapability for ReticulateError {
    open spec fn msg_spec(&self) -> Seq<char> {
        "could not reticulate: "@ + self.item@
    }

    open spec fn cause_spec(&self) -> Option<CauseLink> {
        None
    }

    open spec fn trace_spec(&self) -> Option<snafu::Backtrace> {
        None
    }

    fn message(&self) -> (r: String) {
        String::from_str("could not reticulate: ").concat(self.item.as_str())
    }

    fn cause(&self) -> (r: Option<CauseLink>) {
        None
    }

    fn trace(&self) -> (r: Option<&snafu::Backtrace>) {
        None
    }
}

impl ErrorCapability for IoFailure {
    open spec fn msg_spec(&self) -> Seq<char> {
        self.message@
    }

    open spec fn cause_spec(&self) -> Option<CauseLink> {
        None
    }

    open spec fn trace_spec(&self) -> Option<snafu::Backtrace> {
        None
    }

    fn message(&self) -> (r: String) {
        self.message.clone()
    }

    fn cause(&self) -> (r: Option<CauseLink>) {
        None
    }

    fn trace(&self) -> (r: Option<&snafu::Backtrace>) {
        None
    }
}

impl ErrorCapability for BoxedError {
    open spec fn msg_spec(&self) -> Seq<char> {
        match self {
            BoxedError::NonSnafu(e) => e.msg_spec(),
            BoxedError::Str(e) => e.msg_spec(),
            BoxedError::Reticulate(e) => e.msg_spec(),
            BoxedError::Io(e) => e.msg_spec(),
        }
    }

    open spec fn cause_spec(&self) -> Option<CauseLink> {
        None
    }

    open spec fn trace_spec(&self) -> Option<snafu::Backtrace> {
        None
    }

    fn message(&self) -> (r: String) {
        match self {
            BoxedError::NonSnafu(e) => e.message(),
            BoxedError::Str(e) => e.message(),
            BoxedError::Reticulate(e) => e.message(),
            BoxedError::Io(e) => e.message(),
        }
    }

    fn cause(&self) -> (r: Option<CauseLink>) {
        None
    }

    fn trace(&self) -> (r: Option<&snafu::Backtrace>) {
        None
    }
}

impl ErrorCapability for OptionalBoxedError {
    open spec fn msg_spec(&self) -> Seq<char> {
        match self.0 {
            None => "Unknown cause"@,
            Some(b) => "Caused by: "@ + b.msg_spec(),
        }
    }

    open spec fn cause_spec(&self) -> Option<CauseLink> {
        match self.0 {
            None => None,
            Some(b) => Some(CauseLink::Boxed(b)),
        }
    }

    open spec fn trace_spec(&self) -> Option<snafu::Backtrace> {
        None
    }

    fn message(&self) -> (r: String) {
        match &self.0 {
            None => String::from_str("Unknown cause"),
            Some(b) => String::from_str("Caused by: ").concat(b.message().as_str()),
        }
    }

    fn cause(&self) -> (r: Option<CauseLink>) {
        match &self.0 {
            None => None,
            Some(b) => Some(CauseLink::Boxed(b.clone())),
        }
    }

    fn trace(&self) -> (r: Option<&snafu::Backtrace>) {
        None
    }
}

impl ErrorCapability for CauseLink {
    open spec fn msg_spec(&self) -> Seq<char> {
        match self {
            CauseLink::Boxed(b) => b.msg_spec(),
            CauseLink::OptBoxed(o) => o.msg_spec(),
        }
    }

    open spec fn cause_spec(&self) -> Option<CauseLink> {
        match self {
            CauseLink::Boxed(b) => b.cause_spec(),
            CauseLink::OptBoxed(o) => o.cause_spec(),
        }
    }

    open spec fn trace_spec(&self) -> Option<snafu::Backtrace> {
        None
    }

    fn message(&self) -> (r: String) {
        match self {
            CauseLink::Boxed(b) => b.message(),
            CauseLink::OptBoxed(o) => o.message(),
        }
    }

    fn cause(&self) -> (r: Option<CauseLink>) {
        match self {
            CauseLink::Boxed(b) => b.cause(),
            CauseLink::OptBoxed(o) => o.cause(),
        }
    }

    fn trace(&self) -> (r: Option<&snafu::Backtrace>) {
        None
    }
}

/// Law (optional-cause round trip): an optional cause built absent yields
/// `None` from `cause()`; one built around a present boxed cause yields a
/// link carrying that cause's own message.
pub proof fn lemma_optional_cause_round_trip(b: BoxedError)
    ensures
        (OptionalBoxedError(None)).cause_spec() is None,
        (OptionalBoxedError(Some(b))).cause_spec() matches Some(l) && l.msg_spec() == b.msg_spec(),
{
}

// ---------------------------------------------------------------------------
// Erasure helpers
// ---------------------------------------------------------------------------

/// Conversion of a concrete error into the type-erased `BoxedError`.
pub trait IntoBoxedError: Sized {
    /// The erased shape this error takes.
    spec fn boxed_spec(self) -> BoxedError;

    /// Erases the error, keeping its message, cause and trace behavior.
    fn into_boxed(self) -> (r: BoxedError)
        ensures
            r == self.boxed_spec(),
    ;
}

impl IntoBoxedError for NonSnafuError {
    open spec fn boxed_spec(self) -> BoxedError {
        BoxedError::NonSnafu(self)
    }

    fn into_boxed(self) -> (r: BoxedError) {
        BoxedError::NonSnafu(self)
    }
}

impl IntoBoxedError for StringError {
    open spec fn boxed_spec(self) -> BoxedError {
        BoxedError::Str(self)
    }

    fn into_boxed(self) -> (r: BoxedError) {
        BoxedError::Str(self)
    }
}

impl IntoBoxedError for ReticulateError {
    open spec fn boxed_spec(self) -> BoxedError {
        BoxedError::Reticulate(self)
    }

    fn into_boxed(self) -> (r: BoxedError) {
        BoxedError::Reticulate(self)
    }
}

impl IntoBoxedError for IoFailure {
    open spec fn boxed_spec(self) -> BoxedError {
        BoxedError::Io(self)
    }

    fn into_boxed(self) -> (r: BoxedError) {
        BoxedError::Io(self)
    }
}

/// Lifts a failed result into the type-erased error container.
pub trait BoxErrExt<O, E>: Sized {
    /// What `box_err` returns.
    spec fn box_err_spec(self) -> Result<O, BoxedError>;

    /// Erases the error of a failed result; a successful result passes
    /// through unchanged.
    fn box_err(self) -> (r: Result<O, BoxedError>)
        ensures
            r == self.box_err_spec(),
    ;
}

impl<O, E: IntoBoxedError> BoxErrExt<O, E> for Result<O, E> {
    open spec fn box_err_spec(self) -> Result<O, BoxedError> {
        match self {
            Ok(v) => Ok(v),
            Err(e) => Err(e.boxed_spec()),
        }
    }

    fn box_err(self) -> (r: Result<O, BoxedError>) {
        match self {
            Ok(v) => Ok(v),
            Err(e) => Err(e.into_boxed()),
        }
    }
}

/// Lifts a failed result into the optional-cause container.
pub trait OptBoxErrExt<O, E>: Sized {
    /// What `opt_box_err` returns.
    spec fn opt_box_err_spec(self) -> Result<O, OptionalBoxedError>;

    /// Erases the error of a failed result into a present optional cause; a
    /// successful result passes through unchanged.
    fn opt_box_err(self) -> (r: Result<O, OptionalBoxedError>)
        ensures
            r == self.opt_box_err_spec(),
    ;
}

impl<O, E: IntoBoxedError> OptBoxErrExt<O, E> for Result<O, E> {
    open spec fn opt_box_err_spec(self) -> Result<O, OptionalBoxedError> {
        match self {
            Ok(v) => Ok(v),
            Err(e) => Err(OptionalBoxedError(Some(e.boxed_spec()))),
        }
    }

    fn opt_box_err(self) -> (r: Result<O, OptionalBoxedError>) {
        match self {
            Ok(v) => Ok(v),
            Err(e) => Err(OptionalBoxedError::new(e.into_boxed())),
        }
    }
}

} // verus!
