pub mod console_signal;

use vstd::prelude::*;

use crate::api_enquirer::StatusReport;

verus! {

/// A sink's account of a presentation failure.
#[derive(Debug, PartialEq)]
pub struct SignalError {
    description: String,
}

impl SignalError {
    /// The diagnostic line this failure is reported as.
    pub closed spec fn spec_describe(self) -> Seq<char> {
        self.description@
    }

    /// A failure described by `description`.
    pub fn new(description: String) -> (r: SignalError)
        ensures
            r.spec_describe() == description@,
    {
        SignalError { description }
    }

    /// Renders the diagnostic line for this failure.
    pub fn describe(&self) -> (r: String)
        ensures
            r@ == self.spec_describe(),
    {
        self.description.clone()
    }
}

/// One output channel: accept one status report and try to present it —
/// on a console, an indicator light, a dashboard.  A failure is reported,
/// never thrown; the dispatch loop treats every failure as non-fatal.
pub trait Signal {
    fn signal_for_pin(&self, status_report: &StatusReport) -> Result<(), SignalError>;
}

} // verus!
