//! Calls of the Bot API.
use crate::error::{Error, ErrorView};
use crate::json;
use crate::json::{strip_members, Fields, JsonView};
use vstd::prelude::*;

verus! {

/// A call of a Bot API method with its parameters.
#[derive(Debug, PartialEq)]
pub struct Request {
    pub method: String,
    pub payload: Fields,
}

/// What a call says.
#[verifier::ext_equal]
pub struct RequestView {
    pub method: Seq<char>,
    pub payload: Map<Seq<char>, JsonView>,
}

impl View for Request {
    type V = RequestView;

    open spec fn view(&self) -> RequestView {
        RequestView { method: self.method@, payload: json::fields(self.payload) }
    }
}

/// A call with the given parameters, those that are null left out.
pub open spec fn call(method: Seq<char>, payload: Map<Seq<char>, JsonView>) -> RequestView {
    RequestView { method, payload: json::stripped(JsonView::Object(payload))->Object_0 }
}

/// Makes a call of the given parameters, those that are null left out.
pub fn make_call(method: &str, payload: Fields) -> (request: Request)
    ensures
        request@ == call(method@, json::fields(payload)),
{
    Request { method: method.to_owned(), payload: strip_members(payload) }
}

/// A call, where its parameters can be written.
pub open spec fn requested(
    method: Seq<char>,
    payload: Result<Map<Seq<char>, JsonView>, ErrorView>,
) -> Result<RequestView, ErrorView> {
    match payload {
        Ok(payload) => Ok(call(method, payload)),
        Err(e) => Err(e),
    }
}

/// What a list of calls says.
pub open spec fn calls(requests: Seq<Request>) -> Seq<RequestView> {
    Seq::new(requests.len(), |i: int| requests[i]@)
}

/// Calls to be made in order, and what is wrong with the rest where something
/// is.
#[derive(Debug, PartialEq)]
pub struct Plan {
    pub requests: Vec<Request>,
    pub failure: Option<Error>,
}

/// What a plan says.
#[verifier::ext_equal]
pub struct PlanView {
    pub requests: Seq<RequestView>,
    pub failure: Option<ErrorView>,
}

impl View for Plan {
    type V = PlanView;

    open spec fn view(&self) -> PlanView {
        PlanView {
            requests: calls(self.requests@),
            failure: match self.failure {
                Some(e) => Some(e@),
                None => None,
            },
        }
    }
}

/// No parameter of a call is null, and no member of one is.
pub proof fn law_calls_are_clean(method: Seq<char>, payload: Map<Seq<char>, JsonView>)
    ensures
        json::is_clean(JsonView::Object(call(method, payload).payload)),
{
    json::law_stripped_is_clean(JsonView::Object(payload));
}

/// A call says each of its parameters that is not null.
pub proof fn lemma_call_member(method: Seq<char>, payload: Map<Seq<char>, JsonView>, key: Seq<char>)
    ensures
        json::member(call(method, payload).payload, key) == match json::member(payload, key) {
            None => None,
            Some(value) => if value is Null {
                None
            } else {
                Some(json::stripped(value))
            },
        },
{
    json::lemma_stripped_member(payload, key);
}

} // verus!
