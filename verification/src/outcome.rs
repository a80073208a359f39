//! Reading the device's answer to a colour command.

use vstd::prelude::*;
use vstd::string::*;

verus! {

/// The `state` object of the device's answer.
#[derive(Clone, Copy, Debug, PartialEq, Eq, Structural)]
pub struct WledState {
    pub on: bool,
}

/// The device's answer to a command. Only the `on` flag is read.
#[derive(Clone, Copy, Debug, PartialEq, Eq, Structural)]
pub struct WledResponse {
    pub state: WledState,
}

/// How an attempt to set the colour ended.
#[derive(Clone, Copy, Debug, PartialEq, Eq, Structural)]
pub enum Outcome {
    /// The device answered and reports the light on.
    Applied,
    /// The device answered but reports the light off.
    NotApplied,
    /// The call itself failed: no connection, or an answer that could not
    /// be decoded.
    CallFailed,
}

/// The outcome and the line that reports it.
#[derive(Clone, Debug, PartialEq, Eq)]
pub struct Report {
    pub outcome: Outcome,
    pub line: String,
}

/// The outcome that an answer, or the description of a failed call, means.
pub open spec fn outcome_of(reply: Result<WledResponse, String>) -> Outcome {
    match reply {
        Ok(response) => if response.state.on {
            Outcome::Applied
        } else {
            Outcome::NotApplied
        },
        Err(_) => Outcome::CallFailed,
    }
}

/// The line that reports the outcome for the named colour.
pub open spec fn report_line(color: Seq<char>, reply: Result<WledResponse, String>) -> Seq<char> {
    match reply {
        Ok(response) => if response.state.on {
            "LED color set to "@ + color + " successfully"@
        } else {
            "Failed to set LED color to "@ + color
        },
        Err(error) => "Failed to call WLED API, error: "@ + error@,
    }
}

/// Judges the end of an attempt to set the named colour. `reply` is the
/// device's decoded answer, or the description of the error that kept the
/// call from giving one. Every reply has a report: a failed call is an
/// outcome like the others.
pub fn set_led_color(color: &str, reply: Result<WledResponse, String>) -> (report: Report)
    ensures
        report.outcome == outcome_of(reply),
        report.line@ == report_line(color@, reply),
{
    match reply {
        Ok(response) => {
            if response.state.on {
                let mut line = String::from_str("LED color set to ");
                line.append(color);
                line.append(" successfully");
                Report { outcome: Outcome::Applied, line }
            } else {
                let mut line = String::from_str("Failed to set LED color to ");
                line.append(color);
                Report { outcome: Outcome::NotApplied, line }
            }
        },
        Err(error) => {
            let mut line = String::from_str("Failed to call WLED API, error: ");
            line.append(error.as_str());
            Report { outcome: Outcome::CallFailed, line }
        },
    }
}

} // verus!
