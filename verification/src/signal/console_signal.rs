use vstd::prelude::*;
use vstd::string::StringExecFns;

use std::io::Write;

use crate::api_enquirer::StatusReport;
use crate::signal::{Signal, SignalError};

verus! {

/// The reference sink: prints each report to standard output.
pub struct ConsoleSignal;

/// Relies on std::io::stdout and its Write impl to put the line out; no
/// caller needs anything of the write's outcome.
#[verifier::external_body]
fn print_line(line: &String) {
    let _ = writeln!(std::io::stdout(), "{}", line);
}

impl Signal for ConsoleSignal {
    fn signal_for_pin(&self, status_report: &StatusReport) -> Result<(), SignalError> {
        let mut line: String = "For pin ".to_owned();
        line.append(status_report.pin_id.as_str());
        line.append(": ");
        line.append(status_report.status.as_text());
        print_line(&line);
        Ok(())
    }
}

} // verus!
