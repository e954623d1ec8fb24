//! Outcomes: the tagged result one worker task produces for one completed
//! request, and the rule that selects it from the response and the pair of
//! registered callback handles.

use vstd::prelude::*;
use vstd::multiset::Multiset;
use crate::http::LuaReference;

verus! {

/// What a worker task learned from a completed network call, as plain values.
#[derive(Clone, Debug, PartialEq, Eq)]
pub struct ResponseParts {
    pub status: u16,
    pub headers: Vec<(String, Vec<u8>)>,
    pub body: Vec<u8>,
}

/// The result of one completed request, queued for the host thread.
///
/// `Success` carries the success handle to invoke and, paired with it, the
/// failure handle to release unused; `Failed` the other way around.
/// `FreeReference` instructs the host only to release a handle that will
/// never be invoked.
#[derive(Clone, Debug, PartialEq, Eq)]
pub enum CallbackResult {
    Success(LuaReference, u16, Vec<(String, Vec<u8>)>, Vec<u8>, Option<LuaReference>),
    Failed(LuaReference, String, Option<LuaReference>),
    FreeReference(LuaReference),
}

/// The outcome owed for a response and the handles the request carried.
///
/// A successful response invokes the success callback if one was registered;
/// a failed response invokes the failure callback if one was registered; in
/// either case a registered but unused counterpart is only released. When
/// neither callback was registered no outcome is owed at all: nobody is
/// waiting, and the request was fire-and-forget by design.
pub open spec fn outcome_of(
    response: Result<ResponseParts, String>,
    success: Option<LuaReference>,
    failed: Option<LuaReference>,
) -> Option<CallbackResult> {
    match response {
        Ok(parts) => match success {
            Some(cb) => Some(
                CallbackResult::Success(cb, parts.status, parts.headers, parts.body, failed),
            ),
            None => match failed {
                Some(f) => Some(CallbackResult::FreeReference(f)),
                None => None,
            },
        },
        Err(error) => match failed {
            Some(cb) => Some(CallbackResult::Failed(cb, error, success)),
            None => match success {
                Some(s) => Some(CallbackResult::FreeReference(s)),
                None => None,
            },
        },
    }
}

impl CallbackResult {
    /// Builds the one outcome owed for a completed request, or none when the
    /// request registered neither callback.
    pub fn from_response(
        response: Result<ResponseParts, String>,
        success: Option<LuaReference>,
        failed: Option<LuaReference>,
    ) -> (r: Option<CallbackResult>)
        ensures
            r == outcome_of(response, success, failed),
            r is None <==> success is None && failed is None,
    {
        match response {
            Ok(parts) => match success {
                Some(cb) => Some(
                    CallbackResult::Success(cb, parts.status, parts.headers, parts.body, failed),
                ),
                None => match failed {
                    Some(f) => Some(CallbackResult::FreeReference(f)),
                    None => None,
                },
            },
            Err(error) => match failed {
                Some(cb) => Some(CallbackResult::Failed(cb, error, success)),
                None => match success {
                    Some(s) => Some(CallbackResult::FreeReference(s)),
                    None => None,
                },
            },
        }
    }

    /// Whether a request configured this way will ever produce an outcome.
    pub fn expects_outcome(success: Option<LuaReference>, failed: Option<LuaReference>) -> (r:
        bool)
        ensures
            r == (success is Some || failed is Some),
            forall|response: Result<ResponseParts, String>|
                r == (#[trigger] outcome_of(response, success, failed) is Some),
    {
        success.is_some() || failed.is_some()
    }
}

/// The handles a single optional slot carries.
pub open spec fn opt_handles(h: Option<LuaReference>) -> Multiset<int> {
    match h {
        Some(r) => Multiset::empty().insert(r as int),
        None => Multiset::empty(),
    }
}

/// Every handle a request entered into the system.
pub open spec fn request_handles(
    success: Option<LuaReference>,
    failed: Option<LuaReference>,
) -> Multiset<int> {
    opt_handles(success).add(opt_handles(failed))
}

/// Every handle an outcome obliges the host to release: the handle it
/// invokes and the paired handle it frees unused.
pub open spec fn outcome_handles(o: CallbackResult) -> Multiset<int> {
    match o {
        CallbackResult::Success(cb, _, _, _, paired) => opt_handles(paired).insert(cb as int),
        CallbackResult::Failed(cb, _, paired) => opt_handles(paired).insert(cb as int),
        CallbackResult::FreeReference(h) => Multiset::empty().insert(h as int),
    }
}

/// Handle conservation: whatever the response was, the outcome owed for a
/// request carries exactly the handles the request entered — each registered
/// handle is owed exactly one release. An outcome is omitted only when the
/// request carried no handle at all.
pub proof fn lemma_outcome_conserves_handles(
    response: Result<ResponseParts, String>,
    success: Option<LuaReference>,
    failed: Option<LuaReference>,
)
    ensures
        match outcome_of(response, success, failed) {
            Some(o) => outcome_handles(o) == request_handles(success, failed),
            None => success is None && failed is None && request_handles(success, failed).len()
                == 0,
        },
{
    match outcome_of(response, success, failed) {
        Some(o) => {
            assert(outcome_handles(o) =~= request_handles(success, failed));
        },
        None => {
            assert(request_handles(success, failed) =~= Multiset::empty());
        },
    }
}

} // verus!
