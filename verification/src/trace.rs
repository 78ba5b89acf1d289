use vstd::prelude::*;

verus! {

/// `snafu::Backtrace` — std's captured call-stack snapshot, as snafu hands it
/// out — is opaque to the verifier: values of it are only captured, carried
/// and rendered, never inspected.
#[verifier::external_type_specification]
#[verifier::external_body]
pub struct ExBacktrace(snafu::Backtrace);

/// Relies on snafu's `GenerateImplicitData` impl for `Option<Backtrace>`: it
/// captures a snapshot of the call stack at the point of the call when the
/// environment enables backtrace collection, and returns `None` otherwise.
/// Nothing is promised of the outcome.
#[verifier::external_body]
pub(crate) fn capture_backtrace() -> Option<snafu::Backtrace> {
    snafu::GenerateImplicitData::generate()
}

/// Relies on the `Debug` impl of `snafu::Backtrace` to render the captured
/// snapshot as text; what the text holds depends on the environment, so
/// nothing is promised of it.
#[verifier::external_body]
pub(crate) fn render_backtrace(trace: &snafu::Backtrace) -> String {
    format!("{:?}", trace)
}

} // verus!
