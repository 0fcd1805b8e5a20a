//! What the logging layer reads of a route, a request and a response.
use vstd::prelude::*;

verus! {

/// A registered route.
#[derive(Clone, Debug)]
pub struct RouteInfo {
    pub rank: i64,
    pub name: Option<String>,
    /// The route's path template.
    pub path: String,
    /// The route's HTTP method, in upper case.
    pub method: String,
    /// The media type the route accepts, if it names one.
    pub format: Option<String>,
}

/// An incoming request.
#[derive(Clone, Debug)]
pub struct RequestInfo {
    /// The HTTP method, in upper case.
    pub method: String,
    /// The raw request URI.
    pub uri: String,
    /// The route the request matched, if any.
    pub route: Option<RouteInfo>,
    /// The values of every `User-Agent` header, in order.
    pub user_agents: Vec<String>,
    pub content_type: Option<String>,
}

impl RequestInfo {
    /// A request always names a method and a URI, and a route its method.
    pub open spec fn wf(&self) -> bool {
        &&& self.method@.len() > 0
        &&& self.uri@.len() > 0
        &&& self.route matches Some(route) ==> route.method@.len() > 0
    }
}

/// A response that is ready to be sent.
#[derive(Clone, Debug)]
pub struct ResponseInfo {
    pub code: u16,
    /// The status's reason phrase, where the code has a standard one.
    pub reason: Option<String>,
    pub content_type: Option<String>,
}

} // verus!
