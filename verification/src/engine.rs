//! Method gating, the caller validator set, and the match decision.

use vstd::prelude::*;

use crate::token::{make_validator, validator_token};

verus! {

/// The request method. Only [`Method::Get`] qualifies for validator
/// processing; responses to every other method pass through untouched.
#[derive(Clone, Copy, Debug, PartialEq, Eq, Structural)]
pub enum Method {
    /// GET: read-safe, idempotent, cacheable.
    Get,
    /// HEAD.
    Head,
    /// POST.
    Post,
    /// PUT.
    Put,
    /// DELETE.
    Delete,
    /// OPTIONS.
    Options,
    /// PATCH.
    Patch,
    /// Any other method.
    Other,
}

/// The validators the caller supplied in its conditional request header, as
/// the host framework parsed them: absent (or malformed, treated the same),
/// the wildcard marker meaning "any", or a list of rendered validator tokens.
#[derive(Debug, Clone)]
pub enum CallerValidators {
    /// No conditional header, or one that did not parse.
    Absent,
    /// The wildcard marker: matches any content.
    Wildcard,
    /// The rendered validator tokens the caller already holds.
    Tokens(Vec<String>),
}

/// Spec-level image of [`CallerValidators`].
#[verifier::ext_equal]
pub enum CallerModel {
    /// No validator supplied.
    Absent,
    /// The wildcard marker.
    Wildcard,
    /// The rendered validator tokens.
    Tokens(Seq<Seq<char>>),
}

impl View for CallerValidators {
    type V = CallerModel;

    open spec fn view(&self) -> CallerModel {
        match self {
            CallerValidators::Absent => CallerModel::Absent,
            CallerValidators::Wildcard => CallerModel::Wildcard,
            CallerValidators::Tokens(ts) => CallerModel::Tokens(ts.deep_view()),
        }
    }
}

/// A response body as the materializer sees it: bytes drained into a buffer
/// because their size was finite and known, a body of unbounded or unknown
/// size left untouched, or no body at all.
#[derive(Debug, Clone, PartialEq, Eq)]
pub enum ResponseBody {
    /// The fully buffered body bytes.
    Buffered(Vec<u8>),
    /// A body of unbounded or unknown size, never buffered.
    Streamed,
    /// No body.
    Missing,
}

/// Spec-level image of [`ResponseBody`].
#[verifier::ext_equal]
pub enum BodyModel {
    /// The fully buffered body bytes.
    Buffered(Seq<u8>),
    /// A body of unbounded or unknown size.
    Streamed,
    /// No body.
    Missing,
}

impl View for ResponseBody {
    type V = BodyModel;

    open spec fn view(&self) -> BodyModel {
        match self {
            ResponseBody::Buffered(b) => BodyModel::Buffered(b@),
            ResponseBody::Streamed => BodyModel::Streamed,
            ResponseBody::Missing => BodyModel::Missing,
        }
    }
}

/// A response as the validator logic sees it: the status code, the validator
/// (entity tag) header value if one is set, and the body.
#[derive(Debug, Clone, PartialEq, Eq)]
pub struct Response {
    /// The status code.
    pub status: u16,
    /// The validator header value, if one is set.
    pub validator: Option<String>,
    /// The body.
    pub body: ResponseBody,
}

/// Spec-level image of [`Response`].
#[verifier::ext_equal]
pub struct ResponseModel {
    /// The status code.
    pub status: u16,
    /// The validator header value, if one is set.
    pub validator: Option<Seq<char>>,
    /// The body.
    pub body: BodyModel,
}

impl View for Response {
    type V = ResponseModel;

    open spec fn view(&self) -> ResponseModel {
        ResponseModel {
            status: self.status,
            validator: self.validator.deep_view(),
            body: self.body@,
        }
    }
}

/// The "not modified" status code of the short-circuit response.
pub const NOT_MODIFIED: u16 = 304;

/// The two-valued outcome of comparing the caller's validators against the
/// token computed for the current body.
#[derive(Clone, Copy, Debug, PartialEq, Eq, Structural)]
pub enum Decision {
    /// The caller's validator matches the current content.
    Unchanged,
    /// No match, or no validator supplied.
    Modified,
}

/// A caller validator set matches a token exactly when it is the wildcard
/// marker or contains the token verbatim, under string equality.
pub open spec fn spec_matches(c: CallerModel, token: Seq<char>) -> bool {
    match c {
        CallerModel::Absent => false,
        CallerModel::Wildcard => true,
        CallerModel::Tokens(ts) => ts.contains(token),
    }
}

/// The decision for a buffered body: unchanged exactly when the caller's set
/// matches the body's validator token.
pub open spec fn spec_decision(c: CallerModel, body: Seq<u8>) -> Decision {
    if spec_matches(c, validator_token(body)) {
        Decision::Unchanged
    } else {
        Decision::Modified
    }
}

/// What the middleware makes of a handler response. Non-GET responses and
/// bodies that were not buffered pass through untouched. A buffered GET body
/// either short-circuits to an empty "not modified" response without a
/// validator header, or goes out with its bytes unchanged and a fresh
/// validator attached.
pub open spec fn spec_respond(m: Method, c: CallerModel, r: ResponseModel) -> ResponseModel {
    match m {
        Method::Get => match r.body {
            BodyModel::Buffered(b) => {
                if spec_decision(c, b) is Unchanged {
                    ResponseModel {
                        status: NOT_MODIFIED,
                        validator: None,
                        body: BodyModel::Missing,
                    }
                } else {
                    ResponseModel {
                        status: r.status,
                        validator: Some(validator_token(b)),
                        body: r.body,
                    }
                }
            },
            _ => r,
        },
        _ => r,
    }
}

/// True exactly when the caller's validator set matches the given token.
pub fn matches_validators(caller: &CallerValidators, token: &String) -> (m: bool)
    ensures
        m == spec_matches(caller@, token@),
{
    match caller {
        CallerValidators::Absent => false,
        CallerValidators::Wildcard => true,
        CallerValidators::Tokens(ts) => {
            let n = ts.len();
            let mut i: usize = 0;
            while i < n
                invariant
                    caller@ == CallerModel::Tokens(ts.deep_view()),
                    n == ts@.len(),
                    i <= n,
                    forall|j: int| 0 <= j < i ==> ts.deep_view()[j] != token@,
                decreases n - i,
            {
                let entry: &String = &ts[i];
                proof {
                    assert(ts.deep_view()[i as int] == ts@[i as int]@);
                }
                if entry.eq(token) {
                    proof {
                        assert(ts.deep_view().contains(token@)) by {
                            assert(ts.deep_view()[i as int] == token@);
                        }
                    }
                    return true;
                }
                i = i + 1;
            }
            false
        },
    }
}

/// Computes the decision for a buffered body against the caller's validators.
pub fn decide(caller: &CallerValidators, body: &Vec<u8>) -> (d: Decision)
    ensures
        d == spec_decision(caller@, body@),
{
    let token = make_validator(body);
    if matches_validators(caller, &token) {
        Decision::Unchanged
    } else {
        Decision::Modified
    }
}

/// Method gating: a response to any non-GET request passes through untouched —
/// no validator header is added, no body is dropped, and no short-circuit to
/// "not modified" happens, regardless of body content or caller validators.
pub proof fn lemma_method_gating(m: Method, c: CallerModel, r: ResponseModel)
    requires
        m != Method::Get,
    ensures
        spec_respond(m, c, r) == r,
{
}

/// Wildcard: the wildcard marker always yields the unchanged decision, and a
/// buffered GET body under it always becomes the empty "not modified"
/// response, for any body including the empty one.
pub proof fn lemma_wildcard_unchanged(r: ResponseModel, b: Seq<u8>)
    requires
        r.body == BodyModel::Buffered(b),
    ensures
        spec_decision(CallerModel::Wildcard, b) is Unchanged,
        spec_respond(Method::Get, CallerModel::Wildcard, r) == (ResponseModel {
            status: NOT_MODIFIED,
            validator: None,
            body: BodyModel::Missing,
        }),
{
}

/// Idempotent match: a caller that resubmits the exact validator token issued
/// for a body always gets the unchanged decision for that body, and the
/// response short-circuits to the empty "not modified" response.
pub proof fn lemma_idempotent_match(ts: Seq<Seq<char>>, r: ResponseModel, b: Seq<u8>)
    requires
        ts.contains(validator_token(b)),
        r.body == BodyModel::Buffered(b),
    ensures
        spec_decision(CallerModel::Tokens(ts), b) is Unchanged,
        spec_respond(Method::Get, CallerModel::Tokens(ts), r) == (ResponseModel {
            status: NOT_MODIFIED,
            validator: None,
            body: BodyModel::Missing,
        }),
{
}

} // verus!
