//! The command protocol surface: requests, responses, and the wording of
//! the error strings a response carries.

use vstd::prelude::*;
use vstd::string::StringExecFns;
use crate::errors::DispatchError;

verus! {

/// What one control request holds, as specifications see it.
pub ghost struct RequestView {
    pub action: Seq<char>,
    pub params: Seq<Seq<char>>,
}

/// One decoded control exchange request: an action name and its ordered
/// string parameters.
pub struct ControlRequest {
    pub action: String,
    pub params: Vec<String>,
}

impl View for ControlRequest {
    type V = RequestView;

    open spec fn view(&self) -> RequestView {
        RequestView { action: self.action@, params: self.params@.map_values(|p: String| p@) }
    }
}

/// What one control response holds, as specifications see it.
pub ghost struct ResponseView {
    pub result: Seq<Seq<char>>,
    pub error: Seq<Seq<char>>,
}

/// One control exchange response.  In normal operation at most one of
/// `result` and `error` is non-empty.
pub struct ControlResponse {
    pub result: Vec<String>,
    pub error: Vec<String>,
}

impl View for ControlResponse {
    type V = ResponseView;

    open spec fn view(&self) -> ResponseView {
        ResponseView {
            result: self.result@.map_values(|s: String| s@),
            error: self.error@.map_values(|s: String| s@),
        }
    }
}

/// The error line a response carries for an unrecognized action.
pub open spec fn unknown_command_msg(action: Seq<char>) -> Seq<char> {
    "Unknown command: "@ + action
}

/// The error line a response carries when a known action came with too few
/// parameters.
pub open spec fn missing_argument_msg() -> Seq<char> {
    "Missing argument"@
}

/// Turns a command outcome into the response sent back on the wire: results
/// go to `result`, a `DispatchError` becomes exactly one `error` line.
pub fn response_of(outcome: Result<Vec<String>, DispatchError>) -> (r: ControlResponse)
    ensures
        match outcome {
            Ok(v) => r@.result == v@.map_values(|s: String| s@) && r@.error.len() == 0,
            Err(DispatchError::UnknownAction(a)) => r@.result.len() == 0 && r@.error
                == seq![unknown_command_msg(a@)],
            Err(DispatchError::MissingArgument) => r@.result.len() == 0 && r@.error
                == seq![missing_argument_msg()],
        },
{
    match outcome {
        Ok(v) => ControlResponse { result: v, error: Vec::new() },
        Err(DispatchError::UnknownAction(a)) => {
            let mut msg = String::from_str("Unknown command: ");
            msg.append(a.as_str());
            let mut error: Vec<String> = Vec::new();
            error.push(msg);
            let r = ControlResponse { result: Vec::new(), error };
            proof {
                assert(r@.error =~= seq![unknown_command_msg(a@)]);
            }
            r
        },
        Err(DispatchError::MissingArgument) => {
            let mut error: Vec<String> = Vec::new();
            error.push(String::from_str("Missing argument"));
            let r = ControlResponse { result: Vec::new(), error };
            proof {
                assert(r@.error =~= seq![missing_argument_msg()]);
            }
            r
        },
    }
}

} // verus!
