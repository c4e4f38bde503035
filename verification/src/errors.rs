use vstd::prelude::*;

verus! {

/// The single error kind of this layer: a native operation failed.
///
/// The payload is a fixed reason string naming the operation that failed
/// (`"open display"`, `"create window"`, and so on). Every failure it
/// reports is unrecoverable at the point of detection; callers decide
/// whether to abort or to retry the whole sequence.
#[derive(Debug, Clone, Copy)]
pub enum X11Error {
    OperationFailed(&'static str),
}

/// Holds exactly when `r` is a failure whose reason string reads `msg`.
pub open spec fn failed_with<T>(r: Result<T, X11Error>, msg: Seq<char>) -> bool {
    &&& r matches Err(e)
    &&& e matches X11Error::OperationFailed(m)
    &&& m@ == msg
}

impl X11Error {
    /// The reason string naming the operation that failed.
    pub fn reason(&self) -> (r: &'static str)
        ensures
            self matches X11Error::OperationFailed(m) && r@ == m@,
    {
        match self {
            X11Error::OperationFailed(m) => m,
        }
    }
}

impl From<&'static str> for X11Error {
    fn from(s: &'static str) -> (r: Self)
        ensures
            r == X11Error::OperationFailed(s),
    {
        X11Error::OperationFailed(s)
    }
}

impl vstd::std_specs::convert::FromSpecImpl<&'static str> for X11Error {
    open spec fn obeys_from_spec() -> bool {
        true
    }

    open spec fn from_spec(s: &'static str) -> X11Error {
        X11Error::OperationFailed(s)
    }
}

} // verus!
