use vstd::prelude::*;

use crate::chain::TestError;
use crate::util::{BoxedError, IoFailure, ReticulateError};

verus! {

/// The failures the simulated external collaborator can produce: its own
/// domain failure, or a failure of an I/O attempt made on its behalf.
pub enum DependencyError {
    /// The deterministic domain failure, carrying the item that could not be
    /// reticulated.
    Reticulate { item: String },
    /// A failed I/O attempt, carrying the attempt's description and what the
    /// library keeps of the underlying I/O error.
    IO { message: String, source: IoFailure },
}

impl DependencyError {
    /// Lifts the collaborator's failure into the chain taxonomy: the domain
    /// failure is erased into `DepGeneric`, the I/O failure becomes `DepIO`
    /// with its fields carried over.
    pub fn into_test_error(self) -> (r: TestError)
        ensures
            self matches DependencyError::Reticulate { item } ==> (r matches TestError::DepGeneric {
                source,
                ..
            } && source == (BoxedError::Reticulate(ReticulateError { item }))),
            self matches DependencyError::IO { message, source } ==> (r matches TestError::DepIO {
                message: m,
                source: s,
                ..
            } && m == message && s == source),
    {
        match self {
            DependencyError::Reticulate { item } => TestError::dep_generic(
                BoxedError::Reticulate(ReticulateError { item }),
            ),
            DependencyError::IO { message, source } => TestError::dep_io(message, source),
        }
    }
}

/// The collaborator's failure path when no runtime environment is available:
/// it always fails to reticulate splines.
fn inner() -> (r: Result<(), DependencyError>)
    ensures
        r matches Err(e) && e matches DependencyError::Reticulate { item } && item@ == "splines"@,
{
    Err(DependencyError::Reticulate { item: String::from_str("splines") })
}

/// The collaborator's single entry point: it fails deterministically on
/// every invocation, and the failure crosses back as a `DepGeneric` chain
/// value wrapping the reticulation failure.
pub fn call_dep() -> (r: Result<(), TestError>)
    ensures
        r matches Err(e) && e matches TestError::DepGeneric { source, .. } && source matches
            BoxedError::Reticulate(re) && re.item@ == "splines"@,
{
    match inner() {
        Ok(()) => Ok(()),
        Err(e) => Err(e.into_test_error()),
    }
}

/// The path the collaborator's I/O attempt reads from when a runtime
/// environment is available; it is guaranteed not to exist.
pub fn dep_io_path() -> (r: String)
    ensures
        r@ == "/ASDASDFASDASDFASDF"@,
{
    String::from_str("/ASDASDFASDASDFASDF")
}

/// The collaborator's failure path when a runtime environment is available,
/// applied to the outcome of reading from `dep_io_path()`. The attempt itself
/// happens outside the library; a failed outcome becomes the I/O failure with
/// the attempt's description.
fn inner_io(read_outcome: Result<String, IoFailure>) -> (r: Result<(), DependencyError>)
    ensures
        read_outcome matches Ok(_) ==> r == Ok::<(), DependencyError>(()),
        read_outcome matches Err(io) ==> (r matches Err(e) && e matches DependencyError::IO {
            message,
            source,
        } && message@ == "could not read from file /ASDASDFASDASDFASDF"@ && source == io),
{
    match read_outcome {
        Ok(_) => Ok(()),
        Err(io) => {
            let path = dep_io_path();
            let message = String::from_str("could not read from file ").concat(path.as_str());
            proof {
                reveal_strlit("could not read from file ");
                reveal_strlit("/ASDASDFASDASDFASDF");
                reveal_strlit("could not read from file /ASDASDFASDASDFASDF");
                assert(message@ =~= "could not read from file /ASDASDFASDASDFASDF"@);
            }
            Err(DependencyError::IO { message, source: io })
        },
    }
}

/// The collaborator's entry point under a full runtime environment, applied
/// to the outcome of its I/O attempt: a successful read crosses back as
/// success, a failed read crosses back as a `DepIO` chain value naming the
/// unreadable path and wrapping the kept I/O error.
pub fn call_dep_io(read_outcome: Result<String, IoFailure>) -> (r: Result<(), TestError>)
    ensures
        read_outcome matches Ok(_) ==> r == Ok::<(), TestError>(()),
        read_outcome matches Err(io) ==> (r matches Err(e) && e matches TestError::DepIO {
            message,
            source,
            ..
        } && message@ == "could not read from file /ASDASDFASDASDFASDF"@ && source == io),
{
    match inner_io(read_outcome) {
        Ok(()) => Ok(()),
        Err(e) => Err(e.into_test_error()),
    }
}

} // verus!
