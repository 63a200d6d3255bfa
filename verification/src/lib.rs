//! Conditional-response validation for HTTP GET responses.
//!
//! The crate computes a content fingerprint over a fully buffered response
//! body, encodes it as a weak entity-tag validator token, compares that token
//! against the validators a caller supplied in its conditional request header,
//! and decides whether to return the full response with a fresh validator
//! attached or to replace it with an empty "not modified" response.
//!
//! Only GET responses whose body has a known, finite size take part; every
//! other response passes through untouched. The host HTTP framework delivers
//! requests, drains bodies and serializes headers; the decision logic here is
//! framework-free and fully specified.

use vstd::prelude::*;

pub mod encoding;
pub mod engine;
pub mod fingerprint;
pub mod hex;
pub mod token;

use crate::engine::{
    matches_validators, spec_respond, CallerValidators, Method, Response, ResponseBody,
    NOT_MODIFIED,
};
use crate::token::make_validator;

verus! {

/// Attaches validator tokens to GET responses and short-circuits matching
/// conditional requests. Stateless; wraps a handler via [`Etag::new_transform`].
#[derive(Debug, Default)]
pub struct Etag;

/// Holds the wrapped handler on whose responses the validator logic runs.
pub struct EtagMiddleware<S> {
    /// The wrapped handler.
    pub service: S,
}

impl Etag {
    /// Wraps a handler, yielding the middleware that carries it.
    pub fn new_transform<S>(&self, service: S) -> (m: EtagMiddleware<S>)
        ensures
            m == (EtagMiddleware { service }),
    {
        EtagMiddleware { service }
    }
}

impl<S> EtagMiddleware<S> {
    /// Applies the validator protocol to the response the wrapped handler
    /// produced: passes non-GET responses and unbuffered bodies through
    /// untouched, and for a buffered GET body either short-circuits to an
    /// empty "not modified" response or reattaches the bytes unchanged with a
    /// fresh validator token.
    pub fn respond(
        &self,
        method: &Method,
        caller: &CallerValidators,
        resp: Response,
    ) -> (out: Response)
        ensures
            out@ == spec_respond(*method, caller@, resp@),
    {
        let Response { status, validator, body } = resp;
        match method {
            Method::Get => match body {
                ResponseBody::Buffered(bytes) => {
                    let token = make_validator(&bytes);
                    let matched = matches_validators(caller, &token);
                    if matched {
                        Response {
                            status: NOT_MODIFIED,
                            validator: None,
                            body: ResponseBody::Missing,
                        }
                    } else {
                        Response {
                            status,
                            validator: Some(token),
                            body: ResponseBody::Buffered(bytes),
                        }
                    }
                },
                other => Response { status, validator, body: other },
            },
            _ => Response { status, validator, body },
        }
    }
}

} // verus!
