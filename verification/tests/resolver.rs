use lights::api_enquirer::{BuildStatus, Enquirer, EnquirerError, FetchOutcome};
use lights::api_enquirer::needs_last_build;
use lights::settings::ProjectSettings;

fn project() -> ProjectSettings {
    ProjectSettings { build_type_id: "B1".to_string(), pin_id: "pin1".to_string() }
}

fn response(code: u16, body: &str) -> FetchOutcome {
    FetchOutcome::Response { code, body: body.to_string() }
}

#[test]
fn running_200_resolves_in_progress_without_second_query() {
    let enquirer = Enquirer::new();
    let running = response(200, "");
    assert!(!needs_last_build(&running));
    let report = enquirer.query_for_project(&project(), &running, &None).unwrap();
    assert_eq!(report.pin_id, "pin1");
    assert_eq!(report.status, BuildStatus::InProgress);
}

#[test]
fn running_404_with_success_body_resolves_success() {
    let enquirer = Enquirer::new();
    let running = response(404, "");
    assert!(needs_last_build(&running));
    let last = Some(response(200, "{\"status\":\"SUCCESS\"}"));
    let report = enquirer.query_for_project(&project(), &running, &last).unwrap();
    assert_eq!(report.pin_id, "pin1");
    assert_eq!(report.status, BuildStatus::Success);
}

#[test]
fn running_404_with_failure_body_resolves_failure() {
    let enquirer = Enquirer::new();
    let running = response(404, "");
    let last = Some(response(200, "{\"status\":\"FAILURE\"}"));
    let report = enquirer.query_for_project(&project(), &running, &last).unwrap();
    assert_eq!(report.status, BuildStatus::Failure);
}

#[test]
fn pending_status_value_is_semantic_error() {
    let enquirer = Enquirer::new();
    let last = Some(response(200, "{\"status\":\"PENDING\"}"));
    let err = enquirer.query_for_project(&project(), &response(404, ""), &last).unwrap_err();
    assert_eq!(err, EnquirerError::UnexpectedStatusValue { value: "PENDING".to_string() });
}

#[test]
fn non_string_status_field_is_semantic_error() {
    let enquirer = Enquirer::new();
    let last = Some(response(200, "{\"status\":123}"));
    let err = enquirer.query_for_project(&project(), &response(404, ""), &last).unwrap_err();
    assert_eq!(err, EnquirerError::StatusFieldNotString);
}

#[test]
fn empty_object_body_is_semantic_error() {
    let enquirer = Enquirer::new();
    let last = Some(response(200, "{}"));
    let err = enquirer.query_for_project(&project(), &response(404, ""), &last).unwrap_err();
    assert_eq!(err, EnquirerError::StatusFieldNotString);
}

#[test]
fn invalid_json_body_is_deserialization_error() {
    let enquirer = Enquirer::new();
    let last = Some(response(200, "not json at all"));
    let err = enquirer.query_for_project(&project(), &response(404, ""), &last).unwrap_err();
    assert!(matches!(err, EnquirerError::JsonError { .. }));
    assert!(err.describe().starts_with("Error on response deserialization: "));
}

#[test]
fn running_500_is_semantic_error_naming_the_code() {
    let enquirer = Enquirer::new();
    let running = response(500, "");
    assert!(!needs_last_build(&running));
    let err = enquirer.query_for_project(&project(), &running, &None).unwrap_err();
    assert_eq!(err, EnquirerError::UnexpectedHttpStatus { code: 500 });
    assert_eq!(err.describe(), "Error during running status query, status code 500");
}

#[test]
fn transport_failure_maps_to_http_error() {
    let enquirer = Enquirer::new();
    let running = FetchOutcome::TransportFailure { description: "connection refused".to_string() };
    assert!(!needs_last_build(&running));
    let err = enquirer.query_for_project(&project(), &running, &None).unwrap_err();
    assert_eq!(
        err,
        EnquirerError::HttpError {
            description: "Error on HTTP request processing: connection refused".to_string()
        }
    );
}

#[test]
fn read_failure_maps_to_io_error() {
    let enquirer = Enquirer::new();
    let running = response(404, "");
    let last = Some(FetchOutcome::ReadFailure { description: "broken pipe".to_string() });
    let err = enquirer.query_for_project(&project(), &running, &last).unwrap_err();
    assert_eq!(
        err,
        EnquirerError::IoError { description: "Error on response reading: broken pipe".to_string() }
    );
}

#[test]
fn last_build_stage_ignores_response_code() {
    let enquirer = Enquirer::new();
    let status = enquirer.query_for_last_build(&response(200, "{\"status\":\"SUCCESS\"}"));
    assert_eq!(status.unwrap(), BuildStatus::Success);
}

#[test]
fn status_field_is_read_from_nested_body() {
    // The parse step must really extract the field, not hand the body back.
    let enquirer = Enquirer::new();
    let body = "{\"id\":7,\"status\":\"FAILURE\",\"state\":\"finished\"}";
    let status = enquirer.query_for_last_build(&response(200, body));
    assert_eq!(status.unwrap(), BuildStatus::Failure);
}

#[test]
fn build_status_from_field_decides_exactly() {
    let enquirer = Enquirer::new();
    assert_eq!(
        enquirer.build_status_from_field(Some("SUCCESS".to_string())).unwrap(),
        BuildStatus::Success
    );
    assert_eq!(
        enquirer.build_status_from_field(Some("FAILURE".to_string())).unwrap(),
        BuildStatus::Failure
    );
    assert_eq!(
        enquirer.build_status_from_field(None).unwrap_err(),
        EnquirerError::StatusFieldNotString
    );
    assert_eq!(
        enquirer.build_status_from_field(Some("success".to_string())).unwrap_err(),
        EnquirerError::UnexpectedStatusValue { value: "success".to_string() }
    );
}
