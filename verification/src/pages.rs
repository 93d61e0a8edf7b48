//! The page route group and its handlers.
//!
//! The group binds the three page routes.  Each handler wraps an
//! already-rendered page body and a status code into a response; the
//! rendering itself happens outside the library and its output is handed
//! in.

use vstd::prelude::*;
use crate::routes::HandlerId;
use crate::routes::Method;
use crate::routes::Route;
use crate::routes::RouteTable;
use crate::routes::spec_dispatch;
use crate::ui::ErrorPage;
use crate::ui::Response;

verus! {

/// What the page route group binds: GET / to the home page handler,
/// GET /charts to the charts handler, GET /error to the error-page
/// handler, and nothing else.
pub open spec fn page_routes_bound(routes: Seq<Route>) -> bool {
    &&& routes.len() == 3
    &&& routes[0].binds(Method::Get, "/"@)
    &&& routes[0].handler == HandlerId::Homepage
    &&& routes[1].binds(Method::Get, "/charts"@)
    &&& routes[1].handler == HandlerId::Charts
    &&& routes[2].binds(Method::Get, "/error"@)
    &&& routes[2].handler == HandlerId::ErrorDemo
}

/// The page route group: the three page bindings, each key bound once.
pub fn create_page_routes() -> (r: RouteTable)
    ensures
        r.wf(),
        page_routes_bound(r.routes@),
{
    let router = RouteTable::new()
        .route(Method::Get, "/".to_owned(), HandlerId::Homepage)
        .route(Method::Get, "/charts".to_owned(), HandlerId::Charts)
        .route(Method::Get, "/error".to_owned(), HandlerId::ErrorDemo);
    proof {
        reveal_strlit("/");
        reveal_strlit("/charts");
        reveal_strlit("/error");
        assert(router.routes@[0].path@.len() == 1);
        assert(router.routes@[1].path@.len() == 7);
        assert(router.routes@[2].path@.len() == 6);
    }
    router
}

/// The API route group.  The seed ships no API endpoints, so the group
/// contributes an empty table; it is still merged as an independent group
/// so that endpoints can be added without the page group knowing.
pub fn create_api_routes() -> (r: RouteTable)
    ensures
        r.wf(),
        r.routes@.len() == 0,
{
    RouteTable::new()
}

/// The status each handler answers with.
pub open spec fn handler_status(handler: HandlerId) -> u16 {
    match handler {
        HandlerId::Homepage => 200,
        HandlerId::Charts => 200,
        HandlerId::ErrorDemo => 500,
    }
}

/// The status the composed table answers (method, path) with: the
/// matched handler's status, and 404 when no route matches.
pub open spec fn dispatch_status(routes: Seq<Route>, method: Method, path: Seq<char>) -> u16 {
    match spec_dispatch(routes, method, path) {
        Some(handler) => handler_status(handler),
        None => 404,
    }
}

/// Serve the home page: wrap its rendered body into a 200 response.
pub fn handle_homepage(rendered: String) -> (r: Response)
    ensures
        r.status == 200,
        r.body@ == rendered@,
{
    Response { status: 200, body: rendered }
}

/// Serve the charts page: wrap its rendered body into a 200 response.
pub fn handle_charts(rendered: String) -> (r: Response)
    ensures
        r.status == 200,
        r.body@ == rendered@,
{
    Response { status: 200, body: rendered }
}

/// The fixed example error page the error route demonstrates.
pub fn error_demo_page() -> (r: ErrorPage)
    ensures
        r.status_code == 500,
        r.error@ == "Some error I don't know what"@,
{
    ErrorPage { status_code: 500, error: "Some error I don't know what".to_owned() }
}

/// Serve the error demonstration page: wrap its rendered body into a 500
/// response.
pub fn handle_error_page(rendered: String) -> (r: Response)
    ensures
        r.status == 500,
        r.body@ == rendered@,
{
    Response { status: 500, body: rendered }
}

/// The answer for a request no route binds.
pub fn not_found_response() -> (r: Response)
    ensures
        r.status == 404,
        r.body@ == Seq::<char>::empty(),
{
    Response { status: 404, body: String::new() }
}

/// Answer a request with the status the composed table owes it: dispatch
/// it, answer with the matched handler's status, or with 404 when no
/// route matches.  The body for a matched handler is its rendered page,
/// handed in by the caller; an unmatched request gets an empty body.
pub fn respond(table: &RouteTable, method: Method, path: &String, rendered: String) -> (r:
    Response)
    ensures
        r.status == dispatch_status(table.routes@, method, path@),
        spec_dispatch(table.routes@, method, path@) is Some ==> r.body@ == rendered@,
        spec_dispatch(table.routes@, method, path@) is None ==> r.body@ == Seq::<char>::empty(),
{
    match table.dispatch(method, path) {
        Some(HandlerId::Homepage) => handle_homepage(rendered),
        Some(HandlerId::Charts) => handle_charts(rendered),
        Some(HandlerId::ErrorDemo) => handle_error_page(rendered),
        None => not_found_response(),
    }
}

} // verus!
