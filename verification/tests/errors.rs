use waypoint_rest::error::{ErrorKind, ResourceReadError, RestError};
use waypoint_rest::service::RestService;

#[test]
fn status_mapping_is_correct() {
    let bad = RestError::invalid_params("bad");
    assert_eq!(bad.status_code(), 400);

    let not_found = RestError::NotFound("missing".to_string());
    assert_eq!(not_found.status_code(), 404);

    let internal = RestError::Internal("boom".to_string());
    assert_eq!(internal.status_code(), 500);
}

#[test]
fn error_schema_is_stable() {
    let envelope = RestError::invalid_params("invalid fid").envelope();

    assert_eq!(envelope.error.code, "invalid_params");
    assert!(envelope.error.message.contains("invalid fid"));
    assert_eq!(envelope.error.message, "Invalid parameters: invalid fid");
}

#[test]
fn code_depends_on_the_kind_alone() {
    for message in ["", "not found", "internal_error"] {
        assert_eq!(RestError::InvalidParams(message.to_string()).code(), "invalid_params");
        assert_eq!(RestError::NotFound(message.to_string()).code(), "not_found");
        assert_eq!(RestError::Internal(message.to_string()).code(), "internal_error");
    }
}

#[test]
fn full_text_is_heading_then_message() {
    assert_eq!(RestError::NotFound("x".to_string()).to_text(), "Resource not found: x");
    assert_eq!(RestError::Internal("x".to_string()).to_text(), "Internal error: x");
    assert_eq!(
        ResourceReadError::InvalidParams("x".to_string()).to_text(),
        "Invalid parameters: x"
    );
    assert_eq!(ResourceReadError::NotFound("x".to_string()).to_text(), "Resource not found: x");
    assert_eq!(ResourceReadError::Internal("".to_string()).to_text(), "Internal error: ");
}

#[test]
fn read_errors_convert_with_kind_and_message() {
    let converted = RestError::from(ResourceReadError::NotFound("gone".to_string()));
    assert!(matches!(&converted, RestError::NotFound(m) if m == "gone"));
    assert_eq!(converted.kind(), ErrorKind::NotFound);
    let converted = RestError::from(ResourceReadError::InvalidParams("bad".to_string()));
    assert!(matches!(&converted, RestError::InvalidParams(m) if m == "bad"));
    let converted = RestError::from(ResourceReadError::Internal("boom".to_string()));
    assert!(matches!(&converted, RestError::Internal(m) if m == "boom"));
    assert_eq!(ResourceReadError::Internal("boom".to_string()).kind(), ErrorKind::Internal);
}

#[test]
fn service_configuration_is_built_step_by_step() {
    let service = RestService::new();
    assert_eq!(service.name(), "rest");
    assert_eq!(service.bind_address(), "127.0.0.1");
    assert_eq!(service.port(), 8081);
    assert_eq!(service.max_limit(), 100);
    assert!(!service.swagger_ui_enabled());

    let service = service
        .configure("0.0.0.0".to_string(), 9000)
        .with_max_limit(25)
        .with_swagger_ui_enabled(true);
    assert_eq!(service.bind_address(), "0.0.0.0");
    assert_eq!(service.port(), 9000);
    assert_eq!(service.max_limit(), 25);
    assert!(service.swagger_ui_enabled());

    let service = RestService::default();
    assert_eq!(service.port(), 8081);
}

#[test]
fn singular_not_found_from_reader_returns_json_404() {
    let error = RestError::NotFound("resource missing".to_string());
    assert_eq!(error.status_code(), 404);

    let envelope = error.envelope();
    assert_eq!(envelope.error.code, "not_found");
    assert_eq!(envelope.error.message, "Resource not found: resource missing");
}
