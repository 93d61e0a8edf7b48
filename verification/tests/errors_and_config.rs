use server::envs::{resolve, EnvKey, PORT};
use server::error::{AppError, IoFailureKind};
use server::ui::ErrorPage;

#[test]
fn status_mapping_holds_exactly() {
    assert_eq!(AppError::UiError.status_code(), 500);
    assert_eq!(AppError::JsonError.status_code(), 400);
    assert_eq!(AppError::AppFileNotFound.status_code(), 404);
    assert_eq!(AppError::AppErrUnknown.status_code(), 500);
}

#[test]
fn no_variant_maps_to_success_or_an_unlisted_code() {
    let variants = [
        AppError::JsonError,
        AppError::UiError,
        AppError::AppFileNotFound,
        AppError::AppErrUnknown,
    ];
    for variant in variants {
        let status = variant.status_code();
        assert_ne!(status, 200);
        assert!(status == 400 || status == 404 || status == 500);
    }
}

#[test]
fn io_not_found_classifies_as_file_not_found() {
    assert_eq!(
        AppError::from(IoFailureKind::NotFound),
        AppError::AppFileNotFound
    );
    assert_eq!(
        AppError::from(IoFailureKind::Other),
        AppError::AppErrUnknown
    );
}

#[test]
fn every_variant_renders_one_error_page() {
    let page = ErrorPage::from_app_error(AppError::AppFileNotFound);
    assert_eq!(page.status_code, 404);
    assert_eq!(page.error, "file not found");
    let page = ErrorPage::from_app_error(AppError::JsonError);
    assert_eq!(page.status_code, 400);
    assert_eq!(page.error, "malformed structured input");
    let page = ErrorPage::from_app_error(AppError::UiError);
    assert_eq!(page.status_code, 500);
    assert_eq!(page.error, "template rendering failed");
    let page = ErrorPage::from_app_error(AppError::AppErrUnknown);
    assert_eq!(page.status_code, 500);
    assert_eq!(page.error, "unknown error");
}

#[test]
fn io_failures_map_to_pages_in_one_step() {
    let page = ErrorPage::from_io_failure(IoFailureKind::NotFound);
    assert_eq!(page.status_code, 404);
    let page = ErrorPage::from_io_failure(IoFailureKind::Other);
    assert_eq!(page.status_code, 500);
}

#[test]
fn error_page_becomes_a_plain_response() {
    let page = ErrorPage {
        status_code: 404,
        error: "file not found".to_owned(),
    };
    let response = page.into_response();
    assert_eq!(response.status, 404);
    assert_eq!(response.body, "file not found");
}

#[test]
fn unset_variables_resolve_to_documented_defaults() {
    let cases = [
        (EnvKey::Env, "local"),
        (EnvKey::Component, "Rust-Askama-Seed"),
        (EnvKey::Group, "tool"),
        (EnvKey::Host, "local"),
        (EnvKey::Apps, "unknown"),
        (EnvKey::User, "unknown"),
        (EnvKey::DataCentre, "sd16"),
        (EnvKey::Zone, "DRN"),
        (EnvKey::Country, "srb"),
        (EnvKey::DnsAlias, ""),
        (EnvKey::LocalMode, "false"),
        (EnvKey::Version, "0.9.7"),
    ];
    for (key, expected) in cases {
        assert_eq!(resolve(key, None, "0.9.7"), expected);
    }
}

#[test]
fn set_variables_resolve_to_their_literal_value() {
    let keys = [
        EnvKey::Env,
        EnvKey::Component,
        EnvKey::Group,
        EnvKey::Host,
        EnvKey::Apps,
        EnvKey::User,
        EnvKey::DataCentre,
        EnvKey::Zone,
        EnvKey::Country,
        EnvKey::DnsAlias,
        EnvKey::LocalMode,
        EnvKey::Version,
    ];
    for key in keys {
        assert_eq!(
            resolve(key, Some("from-environment".to_owned()), "0.9.7"),
            "from-environment"
        );
    }
}

#[test]
fn listen_port_is_the_build_time_constant() {
    assert_eq!(PORT, 11706);
}
