//! Request and response bodies exchanged with the ingest service.
//!
//! The service answers `sessions/start` with either a success body (a
//! session token) or an error body (code and message); which one arrived is
//! inferred from which fields are present. `decode_api_response` makes that
//! inference explicit: the success schema is tried first, then the error
//! schema, and neither matching surfaces as a decode failure (`None`).

use vstd::prelude::*;

verus! {

/// A response body that is either the expected payload or the service's
/// error body.
pub enum ApiResponse<T, E> {
    Success(T),
    Failure(E),
}

/// The error body the service sends on a well-formed failure.
pub struct ErrorBody {
    pub code: String,
    pub message: String,
}

/// The success body of `sessions/start`.
pub struct StartSessionResponse {
    pub session_token: String,
}

impl StartSessionResponse {
    /// A stand-in response for runs that never touch the network: the token
    /// is a freshly generated UUID.
    pub fn dev() -> (r: StartSessionResponse)
        ensures
            crate::identity::is_uuid_hyphenated(r.session_token@),
    {
        StartSessionResponse { session_token: crate::identity::fresh_uuid() }
    }
}

/// The body of a `sessions/start` request. Machine descriptors are already
/// bucketed or coarsened; no raw hardware values travel in it.
pub struct StartSessionPayload {
    pub client_version: String,
    pub player_id: Option<String>,
    pub platform: Option<String>,
    pub os: Option<String>,
    pub cpu_family: Option<String>,
    pub cores: Option<String>,
    pub memory: Option<String>,
    pub gpu: Option<String>,
    pub locale: Option<String>,
}

/// The body of a `feedback` request; constructed at submission time, sent
/// once, never stored.
pub struct FeedbackPayload {
    pub message: String,
    pub category: String,
    pub elapsed_ms: u128,
    pub question: Option<String>,
}

/// Picks the decoded reading of an untagged response: the success schema
/// wins when it matched, the error schema is the fallback, and `None` means
/// the body matched neither.
pub fn decode_api_response<T, E>(success: Option<T>, failure: Option<E>) -> (r: Option<
    ApiResponse<T, E>,
>)
    ensures
        success is Some ==> r == Some(ApiResponse::<T, E>::Success(success->0)),
        success is None && failure is Some ==> r == Some(ApiResponse::<T, E>::Failure(failure->0)),
        success is None && failure is None ==> r is None,
{
    match success {
        Some(t) => Some(ApiResponse::Success(t)),
        None => match failure {
            Some(e) => Some(ApiResponse::Failure(e)),
            None => None,
        },
    }
}

} // verus!
