//! What the three endpoints answer. Every answer is fixed: no handler reads a
//! request, the configuration or the state of a shutdown.

use vstd::prelude::*;

verus! {

/// The envelope of an API answer.
#[derive(Debug)]
pub struct ApiResponse<T> {
    /// Whether the request succeeded.
    pub status: &'static str,
    /// A short text for a human reader.
    pub message: &'static str,
    /// The payload.
    pub data: T,
}

/// The answer of the health check.
#[derive(Debug)]
pub struct HealthResponse {
    /// The state of the service.
    pub status: &'static str,
}

/// One of the three routes of the service, each answering `GET`.
#[derive(Clone, Copy, Debug, PartialEq, Eq, Structural)]
pub enum Endpoint {
    /// The greeting.
    Root,
    /// The API's greeting.
    Api,
    /// The health check.
    Health,
}

impl Endpoint {
    /// The path under which the endpoint is routed.
    pub open spec fn path_of(self) -> Seq<char> {
        match self {
            Endpoint::Root => "/"@,
            Endpoint::Api => "/api"@,
            Endpoint::Health => "/health"@,
        }
    }

    /// The path under which the endpoint is routed.
    pub fn path(self) -> (path: &'static str)
        ensures
            path@ == self.path_of(),
    {
        match self {
            Endpoint::Root => "/",
            Endpoint::Api => "/api",
            Endpoint::Health => "/health",
        }
    }
}

/// Answers `GET /`.
pub fn root_handler() -> (r: ApiResponse<()>)
    ensures
        r.status@ == "success"@,
        r.message@ == "Hello World"@,
{
    ApiResponse { status: "success", message: "Hello World", data: () }
}

/// Answers `GET /api`.
pub fn api_handler() -> (r: ApiResponse<()>)
    ensures
        r.status@ == "success"@,
        r.message@ == "Hello API"@,
{
    ApiResponse { status: "success", message: "Hello API", data: () }
}

/// Answers `GET /health`, the same at every moment of the process's life.
pub fn health_handler() -> (r: HealthResponse)
    ensures
        r.status@ == "ok"@,
{
    HealthResponse { status: "ok" }
}

} // verus!
