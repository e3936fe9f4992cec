use lights::api_enquirer::{BuildStatus, Enquirer, EnquirerError};
use lights::settings::ProjectSettings;
use lights::signal::console_signal::ConsoleSignal;
use lights::signal::Signal;
use lights::api_enquirer::StatusReport;
use lights::text::u16_decimal;

#[test]
fn statuses_render_to_their_texts() {
    assert_eq!(BuildStatus::Unknown.as_text(), "UNKNOWN");
    assert_eq!(BuildStatus::InProgress.as_text(), "IN PROGRESS");
    assert_eq!(BuildStatus::Success.as_text(), "SUCCESS");
    assert_eq!(BuildStatus::Failure.as_text(), "FAILURE");
}

#[test]
fn decimal_rendering_is_exact() {
    assert_eq!(u16_decimal(0), "0");
    assert_eq!(u16_decimal(7), "7");
    assert_eq!(u16_decimal(404), "404");
    assert_eq!(u16_decimal(65535), "65535");
}

#[test]
fn errors_describe_themselves() {
    assert_eq!(
        EnquirerError::UnexpectedHttpStatus { code: 503 }.describe(),
        "Error during running status query, status code 503"
    );
    assert_eq!(
        EnquirerError::StatusFieldNotString.describe(),
        "Build status field in server response is not valid string"
    );
    assert_eq!(
        EnquirerError::UnexpectedStatusValue { value: "PENDING".to_string() }.describe(),
        "Unexpected build status value: PENDING"
    );
    assert_eq!(
        EnquirerError::HttpError { description: "no route".to_string() }.describe(),
        "no route"
    );
}

#[test]
fn query_urls_follow_the_path_templates() {
    let enquirer = Enquirer::new();
    let project =
        ProjectSettings { build_type_id: "Proj_Main".to_string(), pin_id: "pin9".to_string() };
    assert_eq!(
        enquirer.running_build_url("http://tc.example", &project),
        "http://tc.example/guestAuth/app/rest/buildTypes/id:Proj_Main/builds/running:true"
    );
    assert_eq!(
        enquirer.last_build_url("http://tc.example", &project),
        "http://tc.example/guestAuth/app/rest/buildTypes/id:Proj_Main/builds/count:1"
    );
    assert_eq!(enquirer.json_accept_header_value(), "application/json; charset=utf-8");
}

#[test]
fn console_signal_accepts_every_report() {
    let sink = ConsoleSignal;
    let report = StatusReport { pin_id: "pin1".to_string(), status: BuildStatus::Success };
    assert!(sink.signal_for_pin(&report).is_ok());
}
