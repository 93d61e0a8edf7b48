//! Bootstrap and routing-composition core of a small web application seed.
//!
//! The library owns the pieces with architectural shape: the application
//! builder and its single-use `App`, the shared application state, the
//! route-table composition with its conflict rule, the error taxonomy with
//! its total mapping to HTTP statuses, and the configuration provider's
//! resolution rule.  Listening, serving and template rendering are I/O and
//! stay outside the library; handlers here work on already-rendered text.

pub mod app;
pub mod envs;
pub mod error;
pub mod pages;
pub mod routes;
pub mod ui;

pub use app::App;
pub use app::AppBuilder;
pub use app::AppState;
pub use app::AppStatus;
pub use envs::EnvKey;
pub use envs::PORT;
pub use error::AppError;
pub use error::IoFailureKind;
pub use pages::create_api_routes;
pub use pages::create_page_routes;
pub use routes::HandlerId;
pub use routes::Method;
pub use routes::Route;
pub use routes::RouteTable;
pub use ui::ChartsPage;
pub use ui::ErrorPage;
pub use ui::HomePage;
