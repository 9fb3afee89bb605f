use object_thumbnail::publish::{check_error, response_meta, PublishError};

#[test]
fn submission_declares_png_length_and_status() {
    let m = response_meta(2_000_000);
    assert_eq!(m.content_type, "image/png");
    assert_eq!(m.content_length, 2_000_000);
    assert_eq!(m.status_code, 200);
}

#[test]
fn submission_declares_an_empty_payload_too() {
    let m = response_meta(0);
    assert_eq!(m.content_length, 0);
    assert_eq!(m.content_type, "image/png");
}

#[test]
fn construction_failure_label() {
    let labels = check_error(&PublishError::ConstructionFailure);
    assert_eq!(labels, vec!["ConstructionFailure"]);
}

#[test]
fn dispatch_failure_label_alone() {
    let labels = check_error(&PublishError::DispatchFailure {
        io: false,
        timeout: false,
        user: false,
        other: false,
    });
    assert_eq!(labels, vec!["DispatchFailure"]);
}

#[test]
fn dispatch_failure_io_label() {
    let labels = check_error(&PublishError::DispatchFailure {
        io: true,
        timeout: false,
        user: false,
        other: false,
    });
    assert_eq!(labels, vec!["DispatchFailure", "IO error"]);
}

#[test]
fn dispatch_failure_timeout_label() {
    let labels = check_error(&PublishError::DispatchFailure {
        io: false,
        timeout: true,
        user: false,
        other: false,
    });
    assert_eq!(labels, vec!["DispatchFailure", "Timeout error"]);
}

#[test]
fn dispatch_failure_user_label() {
    let labels = check_error(&PublishError::DispatchFailure {
        io: false,
        timeout: false,
        user: true,
        other: false,
    });
    assert_eq!(labels, vec!["DispatchFailure", "User error"]);
}

#[test]
fn dispatch_failure_other_label() {
    let labels = check_error(&PublishError::DispatchFailure {
        io: false,
        timeout: false,
        user: false,
        other: true,
    });
    assert_eq!(labels, vec!["DispatchFailure", "Other error"]);
}

#[test]
fn dispatch_failure_all_flags_in_order() {
    let labels = check_error(&PublishError::DispatchFailure {
        io: true,
        timeout: true,
        user: true,
        other: true,
    });
    assert_eq!(
        labels,
        vec!["DispatchFailure", "IO error", "Timeout error", "User error", "Other error"]
    );
}

#[test]
fn response_error_label() {
    let labels = check_error(&PublishError::ResponseError);
    assert_eq!(labels, vec!["ResponseError"]);
}

#[test]
fn timeout_error_label() {
    let labels = check_error(&PublishError::TimeoutError);
    assert_eq!(labels, vec!["TimeoutError"]);
}

#[test]
fn service_error_label() {
    let labels = check_error(&PublishError::ServiceError {
        code: "AccessDenied".to_string(),
        message: "no".to_string(),
        meta: "meta".to_string(),
    });
    assert_eq!(labels, vec!["ServiceError"]);
}

#[test]
fn uncategorized_label() {
    let labels = check_error(&PublishError::Uncategorized);
    assert_eq!(labels, vec!["other error"]);
}
