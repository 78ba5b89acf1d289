use vstd::prelude::*;

use crate::trace::{capture_backtrace, render_backtrace};
use crate::util::{BoxedError, CauseLink, ErrorCapability, IoFailure, OptionalBoxedError, OptionalMessage};

verus! {

/// A plain foreign error type outside any derive machinery: it carries
/// nothing but its human-readable message.
pub struct NonSnafuError {
    pub message: String,
}

impl Clone for NonSnafuError {
    fn clone(&self) -> (r: Self)
        ensures
            r == *self,
    {
        NonSnafuError { message: self.message.clone() }
    }
}

impl ErrorCapability for NonSnafuError {
    open spec fn msg_spec(&self) -> Seq<char> {
        self.message@
    }

    open spec fn cause_spec(&self) -> Option<CauseLink> {
        None
    }

    open spec fn trace_spec(&self) -> Option<snafu::Backtrace> {
        None
    }

    fn message(&self) -> (r: String) {
        self.message.clone()
    }

    fn cause(&self) -> (r: Option<CauseLink>) {
        None
    }

    fn trace(&self) -> (r: Option<&snafu::Backtrace>) {
        None
    }
}

// ---------------------------------------------------------------------------
// The error chain taxonomy
// ---------------------------------------------------------------------------

/// The closed set of named error variants the library propagates. Every
/// variant owns at most one direct cause and the call-stack snapshot
/// captured, if any, when the variant was constructed.
#[allow(inconsistent_fields)]
pub enum TestError {
    /// An unclassified failure wrapping an opaque cause.
    Generic { source: BoxedError, backtrace: Option<snafu::Backtrace> },
    /// A labeled failure from a known local error type.
    Specific { message: String, source: NonSnafuError, backtrace: Option<snafu::Backtrace> },
    /// An unclassified failure originating from an external collaborator.
    DepGeneric { source: BoxedError, backtrace: Option<snafu::Backtrace> },
    /// A failure during an I/O attempt made on behalf of an external
    /// collaborator. This variant belongs to the full-runtime subset of the
    /// taxonomy: under allocator-only operation no I/O attempt exists, and
    /// the collaborator's entry point for that mode never constructs it.
    DepIO { message: String, source: IoFailure, backtrace: Option<snafu::Backtrace> },
    /// A failure that may or may not carry an underlying cause, with an
    /// optional human message.
    OptTest { source: OptionalBoxedError, message: OptionalMessage, backtrace: Option<snafu::Backtrace> },
}

impl ErrorCapability for TestError {
    open spec fn msg_spec(&self) -> Seq<char> {
        match self {
            TestError::Generic { source, .. } => "Generic error: "@ + source.msg_spec(),
            TestError::Specific { message, source, .. } => "Specific error: "@ + message@
                + ": "@ + source.msg_spec(),
            TestError::DepGeneric { source, .. } => "Generic dependency error: "@
                + source.msg_spec(),
            TestError::DepIO { message, source, .. } => "Dependency IO error: "@ + message@
                + ": "@ + source.msg_spec(),
            TestError::OptTest { source, message, .. } => "Error with optionals: "@
                + message.text_spec() + ": "@ + source.msg_spec(),
        }
    }

    open spec fn cause_spec(&self) -> Option<CauseLink> {
        match self {
            TestError::Generic { source, .. } => Some(CauseLink::Boxed(*source)),
            TestError::Specific { source, .. } => Some(
                CauseLink::Boxed(BoxedError::NonSnafu(*source)),
            ),
            TestError::DepGeneric { source, .. } => Some(CauseLink::Boxed(*source)),
            TestError::DepIO { source, .. } => Some(CauseLink::Boxed(BoxedError::Io(*source))),
            TestError::OptTest { source, .. } => Some(CauseLink::OptBoxed(*source)),
        }
    }

    open spec fn trace_spec(&self) -> Option<snafu::Backtrace> {
        match self {
            TestError::Generic { backtrace, .. } => *backtrace,
            TestError::Specific { backtrace, .. } => *backtrace,
            TestError::DepGeneric { backtrace, .. } => *backtrace,
            TestError::DepIO { backtrace, .. } => *backtrace,
            TestError::OptTest { backtrace, .. } => *backtrace,
        }
    }

    fn message(&self) -> (r: String) {
        match self {
            TestError::Generic { source, .. } => String::from_str("Generic error: ").concat(
                source.message().as_str(),
            ),
            TestError::Specific { message, source, .. } => String::from_str("Specific error: ")
                .concat(message.as_str()).concat(": ").concat(source.message().as_str()),
            TestError::DepGeneric { source, .. } => String::from_str(
                "Generic dependency error: ",
            ).concat(source.message().as_str()),
            TestError::DepIO { message, source, .. } => String::from_str("Dependency IO error: ")
                .concat(message.as_str()).concat(": ").concat(source.message().as_str()),
            TestError::OptTest { source, message, .. } => String::from_str(
                "Error with optionals: ",
            ).concat(message.render().as_str()).concat(": ").concat(source.message().as_str()),
        }
    }

    fn cause(&self) -> (r: Option<CauseLink>) {
        match self {
            TestError::Generic { source, .. } => Some(CauseLink::Boxed(source.clone())),
            TestError::Specific { source, .. } => Some(
                CauseLink::Boxed(BoxedError::NonSnafu(source.clone())),
            ),
            TestError::DepGeneric { source, .. } => Some(CauseLink::Boxed(source.clone())),
            TestError::DepIO { source, .. } => Some(
                CauseLink::Boxed(BoxedError::Io(source.clone())),
            ),
            TestError::OptTest { source, .. } => Some(CauseLink::OptBoxed(source.clone())),
        }
    }

    fn trace(&self) -> (r: Option<&snafu::Backtrace>) {
        match self {
            TestError::Generic { backtrace, .. } => backtrace.as_ref(),
            TestError::Specific { backtrace, .. } => backtrace.as_ref(),
            TestError::DepGeneric { backtrace, .. } => backtrace.as_ref(),
            TestError::DepIO { backtrace, .. } => backtrace.as_ref(),
            TestError::OptTest { backtrace, .. } => backtrace.as_ref(),
        }
    }
}

// ---------------------------------------------------------------------------
// Construction protocol
// ---------------------------------------------------------------------------

impl TestError {
    /// Builds the `Generic` variant around a type-erased cause, capturing the
    /// call-stack snapshot now.
    pub fn generic(source: BoxedError) -> (r: TestError)
        ensures
            r matches TestError::Generic { source: s, backtrace: _ } && s == source,
    {
        TestError::Generic { source, backtrace: capture_backtrace() }
    }

    /// Builds the `Specific` variant around a known local error, capturing
    /// the call-stack snapshot now.
    pub fn specific(message: String, source: NonSnafuError) -> (r: TestError)
        ensures
            r matches TestError::Specific { message: m, source: s, backtrace: _ } && m == message
                && s == source,
    {
        TestError::Specific { message, source, backtrace: capture_backtrace() }
    }

    /// Builds the `DepGeneric` variant around a type-erased cause, capturing
    /// the call-stack snapshot now.
    pub fn dep_generic(source: BoxedError) -> (r: TestError)
        ensures
            r matches TestError::DepGeneric { source: s, backtrace: _ } && s == source,
    {
        TestError::DepGeneric { source, backtrace: capture_backtrace() }
    }

    /// Builds the `DepIO` variant around a kept I/O failure, capturing the
    /// call-stack snapshot now.
    pub fn dep_io(message: String, source: IoFailure) -> (r: TestError)
        ensures
            r matches TestError::DepIO { message: m, source: s, backtrace: _ } && m == message
                && s == source,
    {
        TestError::DepIO { message, source, backtrace: capture_backtrace() }
    }

    /// Builds the `OptTest` variant around an optional cause, capturing the
    /// call-stack snapshot now.
    pub fn opt_test(message: OptionalMessage, source: OptionalBoxedError) -> (r: TestError)
        ensures
            r matches TestError::OptTest { source: s, message: m, backtrace: _ } && m == message
                && s == source,
    {
        TestError::OptTest { source, message, backtrace: capture_backtrace() }
    }

    /// Degenerate construction: builds a fully-formed `OptTest` value from
    /// the non-cause fields alone, with an explicitly absent cause.
    pub fn opt_test_no_cause(message: OptionalMessage) -> (r: TestError)
        ensures
            r matches TestError::OptTest { source: s, message: m, backtrace: _ } && m == message
                && s == (OptionalBoxedError(None)),
    {
        TestError::OptTest {
            source: OptionalBoxedError(None),
            message,
            backtrace: capture_backtrace(),
        }
    }
}

/// Converts a result holding a leaf error into a result holding a chain
/// variant, applying the given context-selection step to the error. A
/// successful result passes through unchanged; the conversion itself cannot
/// fail.
pub fn attach_context<T, E, F: Fn(E) -> TestError>(res: Result<T, E>, build: F) -> (r: Result<
    T,
    TestError,
>)
    requires
        res matches Err(e) ==> call_requires(build, (e,)),
    ensures
        res matches Ok(v) ==> r == Ok::<T, TestError>(v),
        res matches Err(e) ==> (r matches Err(te) && call_ensures(build, (e,), te)),
{
    match res {
        Ok(v) => Ok(v),
        Err(e) => Err(build(e)),
    }
}

// ---------------------------------------------------------------------------
// Chain walk and reporting
// ---------------------------------------------------------------------------

/// How many links a partial chain still holds when the walk stands at `c`.
pub open spec fn chain_rank(c: Option<CauseLink>) -> nat {
    match c {
        None => 0,
        Some(CauseLink::Boxed(_)) => 1,
        Some(CauseLink::OptBoxed(o)) => match o.0 {
            None => 1,
            Some(_) => 2,
        },
    }
}

/// The messages of the links reached by following `cause()` from `c`.
pub open spec fn rest_msgs(c: Option<CauseLink>) -> Seq<Seq<char>>
    decreases chain_rank(c),
{
    match c {
        None => Seq::<Seq<char>>::empty(),
        Some(l) => seq![l.msg_spec()] + rest_msgs(l.cause_spec()),
    }
}

/// The message lines of a whole chain: the head's own message, then one
/// message per link, outermost first, innermost last.
pub open spec fn chain_msgs(e: TestError) -> Seq<Seq<char>> {
    seq![e.msg_spec()] + rest_msgs(e.cause_spec())
}

/// Renders a failed result as its report: one line per chain link, outermost
/// cause first, then — only if the head captured a call-stack snapshot — one
/// final line holding the rendered snapshot. A successful result produces no
/// lines at all. The error value is only read, never consumed.
pub fn report_error<T>(res: &Result<T, TestError>) -> (lines: Vec<String>)
    ensures
        res matches Ok(_) ==> lines@.len() == 0,
        res matches Err(e) ==> {
            &&& lines@.len() == chain_msgs(*e).len() + (
            if e.trace_spec() is Some {
                1nat
            } else {
                0nat
            })
            &&& forall|i: int|
                0 <= i < chain_msgs(*e).len() ==> lines@[i]@ == chain_msgs(*e)[i]
            &&& e.trace_spec() is Some ==> exists|s: Seq<char>|
                lines@[chain_msgs(*e).len() as int]@ == "BACKTRACE: "@ + s
        },
{
    let mut lines: Vec<String> = Vec::new();
    let err = match res {
        Ok(_) => {
            return lines;
        },
        Err(e) => e,
    };
    lines.push(err.message());
    let mut cur: Option<CauseLink> = err.cause();
    while cur.is_some()
        invariant
            lines@.map_values(|s: String| s@) + rest_msgs(cur) == chain_msgs(*err),
        decreases chain_rank(cur),
    {
        let link = cur.unwrap();
        let line = link.message();
        proof {
            assert(lines@.push(line).map_values(|s: String| s@) =~= lines@.map_values(
                |s: String| s@,
            ).push(line@));
        }
        lines.push(line);
        cur = link.cause();
        proof {
            assert(lines@.map_values(|s: String| s@) + rest_msgs(cur) =~= chain_msgs(*err));
        }
    }
    proof {
        assert(lines@.map_values(|s: String| s@) =~= chain_msgs(*err));
    }
    match err.trace() {
        None => {},
        Some(bt) => {
            let rendered = render_backtrace(bt);
            let line = String::from_str("BACKTRACE: ").concat(rendered.as_str());
            proof {
                assert(line@ == "BACKTRACE: "@ + rendered@);
            }
            lines.push(line);
        },
    }
    lines
}

// ---------------------------------------------------------------------------
// Laws of the chain
// ---------------------------------------------------------------------------

/// `needle` occurs verbatim inside `hay`.
pub open spec fn occurs_in(needle: Seq<char>, hay: Seq<char>) -> bool {
    exists|i: int|
        0 <= i && i + needle.len() <= hay.len() && #[trigger] hay.subrange(i, i + needle.len())
            == needle
}

/// Law: the walk's tail holds exactly one message per remaining link.
pub proof fn lemma_rest_len(c: Option<CauseLink>)
    ensures
        rest_msgs(c).len() == chain_rank(c),
    decreases chain_rank(c),
{
    match c {
        None => {},
        Some(l) => {
            lemma_rest_len(l.cause_spec());
        },
    }
}

/// Law: every cause chain is finite and acyclic — it holds at least the head
/// and at most the taxonomy's nesting depth of three links, and following
/// `cause()` from the head reaches `None` within that depth.
pub proof fn lemma_chain_acyclic(e: TestError)
    ensures
        1 <= chain_msgs(e).len() <= 3,
        e.cause_spec() matches Some(l1) ==> (l1.cause_spec() matches Some(l2)
            ==> l2.cause_spec() is None),
{
    lemma_rest_len(e.cause_spec());
}

/// Law (message stability): the message of a `Specific` chain value contains
/// both its own message text and its cause's message text verbatim.
pub proof fn lemma_specific_message_stability(message: Seq<char>, e: TestError)
    requires
        e matches TestError::Specific { message: m, .. } && m@ == message,
    ensures
        occurs_in(message, e.msg_spec()),
        e matches TestError::Specific { source, .. } ==> occurs_in(source.msg_spec(), e.msg_spec()),
{
    let hay = e.msg_spec();
    match e {
        TestError::Specific { message: m, source, .. } => {
            let pre = "Specific error: "@;
            let i = pre.len() as int;
            assert(hay.subrange(i, i + message.len()) =~= message);
            let j = hay.len() - source.msg_spec().len();
            assert(hay.subrange(j, j + source.msg_spec().len()) =~= source.msg_spec());
        },
        _ => {},
    }
}

} // verus!
