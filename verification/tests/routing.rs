use server::app::{AppBuilder, AppState, AppStatus};
use server::pages::{
    create_api_routes, create_page_routes, error_demo_page, handle_charts, handle_error_page,
    handle_homepage, not_found_response, respond,
};
use server::routes::{HandlerId, Method, RouteTable};

#[test]
fn page_routes_bind_the_three_pages() {
    let table = create_page_routes();
    assert_eq!(
        table.dispatch(Method::Get, &"/".to_owned()),
        Some(HandlerId::Homepage)
    );
    assert_eq!(
        table.dispatch(Method::Get, &"/charts".to_owned()),
        Some(HandlerId::Charts)
    );
    assert_eq!(
        table.dispatch(Method::Get, &"/error".to_owned()),
        Some(HandlerId::ErrorDemo)
    );
}

#[test]
fn api_routes_are_empty() {
    let table = create_api_routes();
    assert_eq!(table.routes.len(), 0);
}

#[test]
fn get_root_is_ok_with_home_body() {
    let app = AppBuilder::default().build();
    let rendered = "<h1>Rust Askama Seed</h1>".to_owned();
    let response = respond(&app.router, Method::Get, &"/".to_owned(), rendered);
    assert_eq!(response.status, 200);
    assert!(response.body.contains("Rust Askama Seed"));
}

#[test]
fn get_charts_is_ok_with_charts_body() {
    let app = AppBuilder::default().build();
    let rendered = "<canvas>charts</canvas>".to_owned();
    let response = respond(&app.router, Method::Get, &"/charts".to_owned(), rendered);
    assert_eq!(response.status, 200);
    assert!(response.body.contains("charts"));
}

#[test]
fn get_error_is_500_with_configured_message() {
    let app = AppBuilder::default().build();
    let page = error_demo_page();
    assert_eq!(page.status_code, 500);
    assert_eq!(page.error, "Some error I don't know what");
    let rendered = format!("<p>{}</p>", page.error);
    let response = respond(&app.router, Method::Get, &"/error".to_owned(), rendered);
    assert_eq!(response.status, 500);
    assert!(response.body.contains("Some error I don't know what"));
}

#[test]
fn undefined_path_is_not_found() {
    let app = AppBuilder::default().build();
    let response = respond(
        &app.router,
        Method::Get,
        &"/does-not-exist".to_owned(),
        "unused".to_owned(),
    );
    assert_eq!(response.status, 404);
    assert_eq!(response.body, "");
    assert_eq!(
        app.router.dispatch(Method::Get, &"/does-not-exist".to_owned()),
        None
    );
}

#[test]
fn wrong_method_is_not_found() {
    let app = AppBuilder::default().build();
    assert_eq!(app.router.dispatch(Method::Post, &"/".to_owned()), None);
}

#[test]
fn handlers_wrap_rendered_body_with_their_status() {
    let home = handle_homepage("home".to_owned());
    assert_eq!(home.status, 200);
    assert_eq!(home.body, "home");
    let charts = handle_charts("charts".to_owned());
    assert_eq!(charts.status, 200);
    assert_eq!(charts.body, "charts");
    let error = handle_error_page("error".to_owned());
    assert_eq!(error.status, 500);
    assert_eq!(error.body, "error");
    let missing = not_found_response();
    assert_eq!(missing.status, 404);
    assert_eq!(missing.body, "");
}

#[test]
fn merge_is_commutative_for_dispatch() {
    let group_a = RouteTable::new()
        .route(Method::Get, "/".to_owned(), HandlerId::Homepage)
        .route(Method::Get, "/charts".to_owned(), HandlerId::Charts);
    let group_b = RouteTable::new().route(Method::Get, "/error".to_owned(), HandlerId::ErrorDemo);
    let ab = RouteTable::new()
        .route(Method::Get, "/".to_owned(), HandlerId::Homepage)
        .route(Method::Get, "/charts".to_owned(), HandlerId::Charts)
        .merge(group_b)
        .expect("no conflict");
    let ba = RouteTable::new()
        .route(Method::Get, "/error".to_owned(), HandlerId::ErrorDemo)
        .merge(group_a)
        .expect("no conflict");
    for path in ["/", "/charts", "/error", "/api/nope", ""] {
        for method in [Method::Get, Method::Post, Method::Put, Method::Delete] {
            assert_eq!(
                ab.dispatch(method, &path.to_owned()),
                ba.dispatch(method, &path.to_owned())
            );
        }
    }
}

#[test]
fn merge_is_associative() {
    let make_a = || RouteTable::new().route(Method::Get, "/".to_owned(), HandlerId::Homepage);
    let make_b = || RouteTable::new().route(Method::Get, "/charts".to_owned(), HandlerId::Charts);
    let make_c = || RouteTable::new().route(Method::Get, "/error".to_owned(), HandlerId::ErrorDemo);
    let left = make_a()
        .merge(make_b())
        .expect("no conflict")
        .merge(make_c())
        .expect("no conflict");
    let right = make_a()
        .merge(make_b().merge(make_c()).expect("no conflict"))
        .expect("no conflict");
    for path in ["/", "/charts", "/error", "/other"] {
        assert_eq!(
            left.dispatch(Method::Get, &path.to_owned()),
            right.dispatch(Method::Get, &path.to_owned())
        );
    }
}

#[test]
fn merging_conflicting_groups_fails_loudly() {
    let group_a = RouteTable::new().route(Method::Get, "/".to_owned(), HandlerId::Homepage);
    let group_b = RouteTable::new().route(Method::Get, "/".to_owned(), HandlerId::Charts);
    assert!(group_a.merge(group_b).is_none());
}

#[test]
fn merging_distinct_methods_on_one_path_is_no_conflict() {
    let group_a = RouteTable::new().route(Method::Get, "/".to_owned(), HandlerId::Homepage);
    let group_b = RouteTable::new().route(Method::Post, "/".to_owned(), HandlerId::Charts);
    let merged = group_a.merge(group_b).expect("no conflict");
    assert_eq!(
        merged.dispatch(Method::Get, &"/".to_owned()),
        Some(HandlerId::Homepage)
    );
    assert_eq!(
        merged.dispatch(Method::Post, &"/".to_owned()),
        Some(HandlerId::Charts)
    );
}

#[test]
fn builder_substitutes_state_without_mutation() {
    let builder = AppBuilder::default();
    assert_eq!(builder.port, 0);
    assert_eq!(builder.app_state.status, AppStatus::NOT_STARTED);
    let builder = builder.with_state(AppState {
        status: AppStatus::RUNNING,
    });
    assert_eq!(builder.app_state.status, AppStatus::RUNNING);
    assert_eq!(builder.port, 0);
    let app = builder.build();
    assert_eq!(app.state.status, AppStatus::RUNNING);
}

#[test]
fn built_app_serves_from_the_merged_table() {
    let app = AppBuilder::default()
        .with_state(AppState {
            status: AppStatus::STARTED,
        })
        .build();
    assert_eq!(app.router.routes.len(), 3);
    assert_eq!(
        app.router.dispatch(Method::Get, &"/error".to_owned()),
        Some(HandlerId::ErrorDemo)
    );
}
