//! Application bootstrap: shared state, the value-semantics builder, and
//! the built application.
//!
//! The builder merges the independent route groups into one dispatch
//! table and attaches the shared state; building is pure and does no
//! I/O.  Binding the listener and serving requests consume the `App`
//! outside the library, so an application cannot be started twice.

use vstd::prelude::*;
use crate::pages::create_api_routes;
use crate::pages::create_page_routes;
use crate::pages::page_routes_bound;
use crate::routes::RouteTable;
use crate::routes::no_conflict;

verus! {

/// The lifecycle status of the application.
#[allow(non_camel_case_types)]
#[derive(Clone, Copy, PartialEq, Eq, Structural, Debug)]
pub enum AppStatus {
    NOT_STARTED,
    STARTED,
    RUNNING,
    ERROR,
}

/// The small shared value every request handler can read.
#[derive(Clone, Copy, PartialEq, Eq, Structural, Debug)]
pub struct AppState {
    pub status: AppStatus,
}

/// A configured, not-yet-running application: the composed dispatch
/// table and the shared state attached to it.  Starting the server
/// consumes this value, so it can be bound to a listener at most once.
pub struct App {
    pub router: RouteTable,
    pub state: AppState,
}

/// Builds an `App`, decoupling construction from startup.  The builder
/// has value semantics: each step returns a new builder.
pub struct AppBuilder {
    pub port: u16,
    pub app_state: AppState,
}

impl Default for AppBuilder {
    /// The initial builder: port unset, application not started.
    fn default() -> (r: AppBuilder)
        ensures
            r.port == 0,
            r.app_state.status == AppStatus::NOT_STARTED,
    {
        AppBuilder { port: 0, app_state: AppState { status: AppStatus::NOT_STARTED } }
    }
}

impl AppBuilder {
    /// A new builder with the given initial application state
    /// substituted; everything else is kept.  Does not mutate in place.
    pub fn with_state(self, app_state: AppState) -> (r: Self)
        ensures
            r.app_state == app_state,
            r.port == self.port,
    {
        Self { app_state, port: self.port }
    }

    /// Merge all route groups into one dispatch table and attach the
    /// application state.  The page and API groups bind no common
    /// (method, path) key, so the merge cannot fail; the built table is
    /// well-formed and binds exactly the page routes.
    pub fn build(self) -> (r: App)
        ensures
            r.router.wf(),
            page_routes_bound(r.router.routes@),
            r.state == self.app_state,
    {
        let pages = create_page_routes();
        let api = create_api_routes();
        let ghost page_routes = pages.routes@;
        let ghost api_routes = api.routes@;
        proof {
            assert(no_conflict(page_routes, api_routes));
        }
        let main_router = match pages.merge(api) {
            Some(merged) => merged,
            None => vstd::pervasive::unreached(),
        };
        proof {
            crate::routes::lemma_merge_wf(page_routes, api_routes);
            assert(main_router.routes@ =~= page_routes);
        }
        App { router: main_router, state: self.app_state }
    }
}

} // verus!
