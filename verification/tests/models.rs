use tos_backend::middleware::cache::CacheMiddleware;
use tos_backend::models::appointment::validate_appointment_status;
use tos_backend::models::customs::validate_inspection_status;
use tos_backend::models::edi::validate_message_type;
use tos_backend::models::task::validate_task_status;
use tos_backend::models::{
    CreateCustomsInspection, CreateDamageReport, CreateEdiMessage, CreateHistory, CreateTask,
    CreateTruckAppointment, DamageReport, DamageReportWithPhotos, UpdateTask,
    UpdateTruckAppointment,
};

fn failed(result: Result<(), tos_backend::validation::ValidationErrors>) -> Vec<(String, String)> {
    match result {
        Ok(()) => Vec::new(),
        Err(errors) => errors.errors.into_iter().map(|e| (e.field, e.code)).collect(),
    }
}

fn pair(field: &str, code: &str) -> (String, String) {
    (field.to_string(), code.to_string())
}

#[test]
fn message_types_accepted() {
    assert!(validate_message_type("BAPLIE").is_ok());
    assert!(validate_message_type("COARRI").is_ok());
    assert!(validate_message_type("CODECO").is_ok());
    assert_eq!(validate_message_type("baplie").unwrap_err().code, "invalid_message_type");
    assert!(validate_message_type("").is_err());
    assert!(validate_message_type("BAPLIE ").is_err());
}

#[test]
fn edi_message_checks() {
    let ok = CreateEdiMessage { message_type: "COARRI".to_string(), content: "x".to_string() };
    assert!(ok.validate().is_ok());
    let bad = CreateEdiMessage { message_type: "COARRI".to_string(), content: String::new() };
    assert_eq!(failed(bad.validate()), vec![pair("content", "length")]);
    let bad = CreateEdiMessage { message_type: "EDI".to_string(), content: String::new() };
    assert_eq!(
        failed(bad.validate()),
        vec![pair("message_type", "invalid_message_type"), pair("content", "length")]
    );
}

#[test]
fn status_checks() {
    for s in ["PENDING", "IN_PROGRESS", "COMPLETED"] {
        assert!(validate_task_status(s).is_ok());
        assert!(validate_inspection_status(s).is_ok());
    }
    assert!(validate_inspection_status("FAILED").is_ok());
    assert_eq!(validate_task_status("FAILED").unwrap_err().code, "invalid_status");
    assert_eq!(validate_inspection_status("failed").unwrap_err().code, "invalid_status");
    for s in ["SCHEDULED", "COMPLETED", "CANCELLED"] {
        assert!(validate_appointment_status(s).is_ok());
    }
    assert_eq!(validate_appointment_status("PENDING").unwrap_err().code, "invalid_status");
}

#[test]
fn task_checks() {
    let task = CreateTask {
        title: "Move".to_string(),
        description: None,
        status: "PENDING".to_string(),
        assignee: None,
        container_id: None,
    };
    assert!(task.validate().is_ok());
    let task = UpdateTask {
        title: String::new(),
        description: None,
        status: "DONE".to_string(),
        assignee: None,
        container_id: None,
    };
    assert_eq!(failed(task.validate()), vec![pair("title", "length"), pair("status", "invalid_status")]);
}

#[test]
fn appointment_checks() {
    let appointment = CreateTruckAppointment {
        trucking_company: "ACME".to_string(),
        driver_name: String::new(),
        license_plate: "AB-1".to_string(),
        appointment_time: String::new(),
        status: "SCHEDULED".to_string(),
        container_id: None,
    };
    assert_eq!(
        failed(appointment.validate()),
        vec![pair("driver_name", "length"), pair("appointment_time", "length")]
    );
    let appointment = UpdateTruckAppointment {
        trucking_company: "ACME".to_string(),
        driver_name: "D".to_string(),
        license_plate: "AB-1".to_string(),
        appointment_time: "noon".to_string(),
        status: "LATE".to_string(),
        container_id: None,
    };
    assert_eq!(failed(appointment.validate()), vec![pair("status", "invalid_status")]);
}

#[test]
fn history_and_customs_checks() {
    let history = CreateHistory { event: String::new(), description: None };
    assert_eq!(failed(history.validate()), vec![pair("event", "length")]);
    let history = CreateHistory { event: "gate".to_string(), description: None };
    assert!(history.validate().is_ok());
    let inspection =
        CreateCustomsInspection { status: "OPEN".to_string(), notes: None, inspected_by: None };
    assert_eq!(failed(inspection.validate()), vec![pair("status", "invalid_status")]);
}

fn report(photos: Option<&str>) -> DamageReport {
    DamageReport {
        id: 4,
        description: "dent".to_string(),
        reported_by: "crane 2".to_string(),
        photos: photos.map(|p| p.to_string()),
        container_id: "C1".to_string(),
        created_at: "t".to_string(),
    }
}

#[test]
fn damage_report_photos_are_read_from_json() {
    let shown = DamageReportWithPhotos::from(report(Some("[\"a.jpg\", \"b\\u00e9.png\"]")));
    assert_eq!(shown.photos, vec!["a.jpg".to_string(), "b\u{e9}.png".to_string()]);
    assert_eq!(shown.id, 4);
    assert_eq!(shown.description, "dent");
    assert_eq!(shown.reported_by, "crane 2");
    assert_eq!(shown.container_id, "C1");
    assert_eq!(shown.created_at, "t");
    assert!(DamageReportWithPhotos::from(report(None)).photos.is_empty());
    assert!(DamageReportWithPhotos::from(report(Some("not json"))).photos.is_empty());
    assert!(DamageReportWithPhotos::from(report(Some("[1, 2]"))).photos.is_empty());
    assert!(DamageReportWithPhotos::from(report(Some("[]"))).photos.is_empty());
}

#[test]
fn damage_report_checks_and_photo_text() {
    let create = CreateDamageReport {
        description: "dent".to_string(),
        reported_by: String::new(),
        photos: Some(vec!["a.jpg".to_string(), "q\"uote".to_string()]),
    };
    assert_eq!(failed(create.validate()), vec![pair("reported_by", "length")]);
    assert_eq!(create.photos_json(), Some("[\"a.jpg\",\"q\\\"uote\"]".to_string()));
    let create = CreateDamageReport {
        description: "dent".to_string(),
        reported_by: "me".to_string(),
        photos: None,
    };
    assert!(create.validate().is_ok());
    assert_eq!(create.photos_json(), None);
    let create = CreateDamageReport {
        description: String::new(),
        reported_by: String::new(),
        photos: Some(Vec::new()),
    };
    assert_eq!(
        failed(create.validate()),
        vec![pair("description", "length"), pair("reported_by", "length")]
    );
    assert_eq!(create.photos_json(), Some("[]".to_string()));
}

#[test]
fn cache_control_for_get_only() {
    let middleware = CacheMiddleware::new();
    assert_eq!(middleware.cache_control("GET"), Some("public, max-age=300".to_string()));
    assert_eq!(middleware.cache_control("POST"), None);
    assert_eq!(middleware.cache_control("get"), None);
}
