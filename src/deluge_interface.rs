//! The request envelope and the builder that accumulates one.
use vstd::prelude::*;

use crate::error::DelugeApiError;

verus! {

/// A JSON value, carried through opaquely as one parameter of a request.
#[verifier::external_type_specification]
#[verifier::external_body]
pub struct ExJsonValue(serde_json::Value);

/// The correlation number that every request carries. Requests are not
/// correlated with their responses by it: one call has one request in
/// flight, and its response is the next one read.
pub const REQUEST_ID: usize = 1;

/// A request envelope `{method, params, id}`; `params` are positional.
#[derive(Debug)]
pub struct Request {
    pub method: String,
    pub params: Vec<serde_json::Value>,
    pub id: usize,
}

/// Accumulates a method name and its positional parameters, in call order,
/// and hands them out as one `Request`.
#[derive(Debug)]
pub struct RequestBuilder {
    method: String,
    params: Vec<serde_json::Value>,
}

impl View for RequestBuilder {
    type V = (Seq<char>, Seq<serde_json::Value>);

    /// The method name and the parameters added so far.
    closed spec fn view(&self) -> (Seq<char>, Seq<serde_json::Value>) {
        (self.method@, self.params@)
    }
}

impl RequestBuilder {
    /// A builder for a call of `method`, with no parameters yet.
    pub fn start(method: &str) -> (r: Self)
        ensures
            r@ == (method@, Seq::<serde_json::Value>::empty()),
    {
        RequestBuilder { method: String::from_str(method), params: Vec::new() }
    }

    /// Appends one parameter.
    pub fn add_param(&mut self, param: serde_json::Value) -> (r: &mut Self)
        ensures
            r@ == (old(self)@.0, old(self)@.1.push(param)),
            *final(self) == *final(r),
    {
        self.params.push(param);
        self
    }

    /// Appends several parameters, in their order.
    pub fn add_params(&mut self, params: Vec<serde_json::Value>) -> (r: &mut Self)
        ensures
            r@ == (old(self)@.0, old(self)@.1 + params@),
            *final(self) == *final(r),
    {
        let mut params = params;
        self.params.append(&mut params);
        self
    }

    /// Hands out the method and the parameters as a request, and leaves the
    /// builder empty, ready for another call.
    pub fn finalize(&mut self) -> (r: Request)
        ensures
            r.method@ == old(self)@.0,
            r.params@ == old(self)@.1,
            r.id == REQUEST_ID,
            final(self)@ == (Seq::<char>::empty(), Seq::<serde_json::Value>::empty()),
    {
        let mut method = String::new();
        let mut params: Vec<serde_json::Value> = Vec::new();
        std::mem::swap(&mut self.method, &mut method);
        std::mem::swap(&mut self.params, &mut params);
        Request { method, params, id: REQUEST_ID }
    }
}

/// The name/value pairs of request headers whose values all read as text,
/// or `IncorrectHeaderFormat` when one does not (`None`).
pub fn header_pairs(headers: &Vec<(String, Option<String>)>) -> (r: Result<Vec<(String, String)>, DelugeApiError>)
    ensures
        r is Ok <==> forall|i: int| 0 <= i < headers@.len() ==> (#[trigger] headers@[i]).1 is Some,
        r is Err ==> r matches Err(DelugeApiError::IncorrectHeaderFormat),
        r matches Ok(pairs) ==> pairs@.len() == headers@.len() && forall|i: int|
            0 <= i < headers@.len() ==> (#[trigger] pairs@[i]).0 == headers@[i].0 && Some(pairs@[i].1)
                == headers@[i].1,
{
    let mut pairs: Vec<(String, String)> = Vec::new();
    let mut i: usize = 0;
    while i < headers.len()
        invariant
            i <= headers@.len(),
            pairs@.len() == i,
            forall|j: int| 0 <= j < i ==> (#[trigger] headers@[j]).1 is Some,
            forall|j: int| 0 <= j < i ==> (#[trigger] pairs@[j]).0 == headers@[j].0 && Some(pairs@[j].1)
                == headers@[j].1,
        decreases headers@.len() - i,
    {
        match &headers[i] {
            (name, Some(value)) => {
                pairs.push((name.clone(), value.clone()));
            },
            (_, None) => {
                return Err(DelugeApiError::IncorrectHeaderFormat);
            },
        }
        i = i + 1;
    }
    Ok(pairs)
}

/// An account of the daemon.
#[derive(Debug)]
pub struct Account {
    pub username: String,
    pub password: String,
    pub authlevel: String,
    pub authlevel_int: usize,
}

} // verus!
