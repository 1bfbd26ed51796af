//! Validation and routing of an inbound request into a command.
//!
//! The command source delivers a decoded request; this module decides
//! whether it is the supported `setValue` call, whether its parameters are
//! present, and which of the two commands it names.

use vstd::prelude::*;

use crate::model::RequestPayload;
use crate::reconciler::Command;

verus! {

/// Why a request was not routed to a command.
#[derive(Clone, Copy, Debug, PartialEq, Eq, Structural)]
pub enum RouteError {
    /// The request names a method other than `setValue`.
    UnsupportedMethod,
    /// The request carries no parameters.
    MissingParams,
    /// The parameters name neither `lamp_state` nor `sensor_state`.
    UnknownRequestType,
}

/// The command a request routes to, or the error that rejects it: the
/// method must be `setValue`, parameters must be present, and the request
/// type picks the command.
pub open spec fn spec_route(req: RequestPayload) -> Result<Command, RouteError> {
    if req.method@ != "setValue"@ {
        Result::Err(RouteError::UnsupportedMethod)
    } else {
        match req.params {
            Option::None => Result::Err(RouteError::MissingParams),
            Option::Some(p) => if p.request_type@ == "lamp_state"@ {
                Result::Ok(Command::SetLamp(p.value))
            } else if p.request_type@ == "sensor_state"@ {
                Result::Ok(Command::SetSensorMode(p.value))
            } else {
                Result::Err(RouteError::UnknownRequestType)
            },
        }
    }
}

/// Character-wise string equality.
fn str_eq(a: &str, b: &str) -> (r: bool)
    ensures
        r == (a@ == b@),
{
    let na = a.unicode_len();
    let nb = b.unicode_len();
    if na != nb {
        return false;
    }
    let mut i: usize = 0;
    while i < na
        invariant
            i <= na,
            na == a@.len(),
            na == b@.len(),
            forall|j: int| 0 <= j < i ==> a@[j] == b@[j],
        decreases na - i,
    {
        if a.get_char(i) != b.get_char(i) {
            return false;
        }
        i += 1;
    }
    proof {
        assert(a@ =~= b@);
    }
    true
}

/// Route a request to the command it asks for, rejecting anything but a
/// well-formed `setValue` call on one of the two flags.
pub fn route_request(req: &RequestPayload) -> (r: Result<Command, RouteError>)
    ensures
        r == spec_route(*req),
{
    if !str_eq(req.method.as_str(), "setValue") {
        return Result::Err(RouteError::UnsupportedMethod);
    }
    match &req.params {
        Option::None => Result::Err(RouteError::MissingParams),
        Option::Some(p) => {
            if str_eq(p.request_type.as_str(), "lamp_state") {
                Result::Ok(Command::SetLamp(p.value))
            } else if str_eq(p.request_type.as_str(), "sensor_state") {
                Result::Ok(Command::SetSensorMode(p.value))
            } else {
                Result::Err(RouteError::UnknownRequestType)
            }
        },
    }
}

} // verus!
