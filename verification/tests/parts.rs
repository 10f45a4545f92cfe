use hospital_management_system::cache::{CachedView, ViewCache};
use hospital_management_system::dto::{TriagePatientCalled, TriageQueueItem};
use hospital_management_system::error::{
    ApiFieldError, ApiResponse, AppError, FieldIssue, FieldIssues, RequestId,
};
use hospital_management_system::model::{
    parse_visit_type, visit_type_from_lowercase, BirthDate, BloodType, CreateTriageRequest,
    BIRTH_DATE_FORMAT,
    DocumentStatus, Gender, IntentStatus, TicketStatus, VisitType,
};
use hospital_management_system::service::{
    blank, call_key_text, cancel_key_text, complete_key_text, queue_key_text, status_key_text,
    ticket_key_text, CACHE_TTL_SECONDS,
};
use hospital_management_system::settings::{text_or_fault, AppConfig, ConfigFault, SettingTexts};
use hospital_management_system::text::{int_text, same_text};
use hospital_management_system::upload::{
    file_extension, raw_extension, referral_file_name, referral_url, take_chunk, valid_extension,
    MAX_FILE_SIZE, REFERRAL_BUCKET,
};
use hospital_management_system::validate::{
    check_fields, phone_verdict, validate, validate_phone, Rule, PHONE_PATTERN,
};

fn request() -> CreateTriageRequest {
    CreateTriageRequest {
        name: "Ani".to_string(),
        date_of_birth: BirthDate { year: 1990, month: 4, day: 12 },
        national_id: "1234567890123456".to_string(),
        bpjs_number: Some("0001234567890".to_string()),
        gender: Gender::Female,
        emergency_contact_name: "Budi".to_string(),
        emergency_contact_phone: "+628123456789".to_string(),
        emergency_contact_relationship: "brother".to_string(),
        blood_type: BloodType::OPlus,
        known_allergies: None,
        visit_type: VisitType::BPJS,
    }
}

#[test]
fn decimal_text() {
    assert_eq!(int_text(0), "0");
    assert_eq!(int_text(7), "7");
    assert_eq!(int_text(10), "10");
    assert_eq!(int_text(-5), "-5");
    assert_eq!(int_text(2147483647), "2147483647");
    assert_eq!(int_text(-2147483648), "-2147483648");
    assert_eq!(int_text(i64::MAX), "9223372036854775807");
    assert_eq!(int_text(i64::MIN), "-9223372036854775808");
    assert_eq!(int_text(1002003), "1002003");
}

#[test]
fn text_comparison() {
    assert!(same_text("abc", "abc"));
    assert!(!same_text("abc", "abd"));
    assert!(!same_text("abc", "ab"));
    assert!(same_text("", ""));
}

#[test]
fn cache_keys() {
    assert_eq!(queue_key_text(VisitType::COMMON), "triage:queue:COMMON");
    assert_eq!(queue_key_text(VisitType::BPJS), "triage:queue:BPJS");
    assert_eq!(ticket_key_text("triage:queue:", VisitType::BPJS, 12), "triage:queue:BPJS:id:12");
    assert_eq!(ticket_key_text("call:queue:", VisitType::COMMON, 1), "call:queue:COMMON:id:1");
    assert_eq!(ticket_key_text("complete:queue:", VisitType::COMMON, -4), "complete:queue:COMMON:id:-4");
    assert_eq!(ticket_key_text("cancel:queue:", VisitType::BPJS, 300), "cancel:queue:BPJS:id:300");
    assert_eq!(status_key_text(VisitType::COMMON, 5), "triage:queue:COMMON:id:5");
    assert_eq!(call_key_text(VisitType::BPJS, 5), "call:queue:BPJS:id:5");
    assert_eq!(complete_key_text(VisitType::COMMON, 10), "complete:queue:COMMON:id:10");
    assert_eq!(cancel_key_text(VisitType::COMMON, 2147483647), "cancel:queue:COMMON:id:2147483647");
    assert_eq!(CACHE_TTL_SECONDS, 300);
}

#[test]
fn visit_type_parsing_ignores_case() {
    assert_eq!(parse_visit_type("common").unwrap(), VisitType::COMMON);
    assert_eq!(parse_visit_type("COMMON").unwrap(), VisitType::COMMON);
    assert_eq!(parse_visit_type("CoMmOn").unwrap(), VisitType::COMMON);
    assert_eq!(parse_visit_type("bpjs").unwrap(), VisitType::BPJS);
    assert_eq!(parse_visit_type("BPJS").unwrap(), VisitType::BPJS);
    match parse_visit_type("Emergency") {
        Err(AppError::BadRequest(m)) => assert_eq!(m, "Unknown visit type: emergency"),
        other => panic!("unexpected {:?}", other),
    }
    match parse_visit_type("ÉCOLE") {
        Err(AppError::BadRequest(m)) => assert_eq!(m, "Unknown visit type: école"),
        other => panic!("unexpected {:?}", other),
    }
    assert_eq!(visit_type_from_lowercase("bpjs").unwrap(), VisitType::BPJS);
    match visit_type_from_lowercase("COMMON") {
        Err(AppError::BadRequest(m)) => assert_eq!(m, "Unknown visit type: COMMON"),
        other => panic!("unexpected {:?}", other),
    }
}

#[test]
fn request_spellings() {
    assert_eq!(VisitType::parse("common"), Some(VisitType::COMMON));
    assert_eq!(VisitType::parse("Common"), Some(VisitType::COMMON));
    assert_eq!(VisitType::parse("COMMON"), Some(VisitType::COMMON));
    assert_eq!(VisitType::parse("bpjs"), Some(VisitType::BPJS));
    assert_eq!(VisitType::parse("BPJS"), Some(VisitType::BPJS));
    assert_eq!(VisitType::parse("Bpjs"), None);
    assert_eq!(VisitType::parse("cOMMON"), None);
    assert_eq!(Gender::parse("m"), Some(Gender::Male));
    assert_eq!(Gender::parse("MALE"), Some(Gender::Male));
    assert_eq!(Gender::parse("Female"), Some(Gender::Female));
    assert_eq!(Gender::parse("f"), Some(Gender::Female));
    assert_eq!(Gender::parse("F"), None);
    assert_eq!(BloodType::parse("A+"), Some(BloodType::APlus));
    assert_eq!(BloodType::parse("ab-"), Some(BloodType::ABMinus));
    assert_eq!(BloodType::parse("OMinus"), Some(BloodType::OMinus));
    assert_eq!(BloodType::parse("BPLUS"), Some(BloodType::BPlus));
    assert_eq!(BloodType::parse("c+"), None);
    assert_eq!(BloodType::from_lowercase("A+"), None);
}

#[test]
fn names_of_variants() {
    assert_eq!(VisitType::COMMON.to_string(), "COMMON");
    assert_eq!(VisitType::BPJS.to_string(), "BPJS");
    assert_eq!(TicketStatus::Waiting.to_string(), "WAITING");
    assert_eq!(TicketStatus::Called.to_string(), "CALLED");
    assert_eq!(TicketStatus::Done.to_string(), "DONE");
    assert_eq!(TicketStatus::Cancelled.to_string(), "CANCELLED");
    assert_eq!(TicketStatus::Skipped.to_string(), "SKIPPED");
    assert_eq!(IntentStatus::Pending.to_string(), "PENDING");
    assert_eq!(IntentStatus::Cancelled.to_string(), "CANCELLED");
    assert_eq!(DocumentStatus::Scanning.to_string(), "SCANNING");
    assert_eq!(Gender::Male.to_string(), "Male");
    assert_eq!(BloodType::ABPlus.to_string(), "ABPlus");
}

#[test]
fn blank_texts() {
    assert!(blank(""));
    assert!(blank(" \t\r\n"));
    assert!(!blank(" a "));
    assert!(!blank("0"));
}

#[test]
fn cache_entry_lives_for_its_time_to_live() {
    let mut cache = ViewCache::new();
    let now: i64 = 5_000_000_000;
    let view = TriagePatientCalled { queue_number: 3, queue_type: VisitType::BPJS, called_at: now };
    assert!(cache.get("k", now).is_none());
    cache.set("k", CachedView::Called(view), 300, now);
    assert!(matches!(cache.get("k", now), Some(CachedView::Called(v)) if *v == view));
    assert!(cache.get("k", now + 299_999_999).is_some());
    assert!(cache.get("k", now + 300_000_000).is_none());
    assert!(cache.get("k", now + 900_000_000).is_none());
    assert!(cache.get("other", now).is_none());
    // A later write replaces the entry and starts its life anew.
    let items = vec![TriageQueueItem {
        queue_number: 1,
        patient_id: 2,
        status: TicketStatus::Waiting,
        created_at: now,
    }];
    cache.set("k", CachedView::Queue(items.clone()), 10, now + 400_000_000);
    assert_eq!(cache.entries.len(), 1);
    assert!(matches!(cache.get("k", now + 409_999_999), Some(CachedView::Queue(v)) if *v == items));
    assert!(cache.get("k", now + 410_000_000).is_none());
    cache.set("j", CachedView::Called(view), 0, now);
    assert!(cache.get("j", now).is_none());
    assert_eq!(cache.entries.len(), 2);
}

#[test]
fn phone_pattern() {
    assert_eq!(PHONE_PATTERN, r"^\+?[1-9]\d{1,14}$");
    assert_eq!(validate_phone("+628123456789"), Ok(()));
    assert_eq!(validate_phone("628123456789"), Ok(()));
    assert_eq!(validate_phone("12"), Ok(()));
    assert_eq!(validate_phone("123456789012345"), Ok(()));
    assert_eq!(validate_phone("1234567890123456"), Err(Rule::ContactPhone));
    assert_eq!(validate_phone("0812345"), Err(Rule::ContactPhone));
    assert_eq!(validate_phone("1"), Err(Rule::ContactPhone));
    assert_eq!(validate_phone("+62 812"), Err(Rule::ContactPhone));
    assert_eq!(validate_phone(""), Err(Rule::ContactPhone));
    assert_eq!(validate_phone("phone"), Err(Rule::ContactPhone));
    assert_eq!(phone_verdict(Some(true)), Ok(()));
    assert_eq!(phone_verdict(Some(false)), Err(Rule::ContactPhone));
    assert_eq!(phone_verdict(None), Err(Rule::ContactPhone));
}

#[test]
fn valid_request_passes() {
    assert!(validate(&request()).is_ok());
    let mut r = request();
    r.bpjs_number = None;
    assert!(validate(&r).is_ok());
    assert!(check_fields(&r, true).is_empty());
}

#[test]
fn broken_rules_are_reported_in_field_order() {
    let mut r = request();
    r.name = String::new();
    r.national_id = "123".to_string();
    r.bpjs_number = Some("12".to_string());
    r.emergency_contact_name = String::new();
    r.emergency_contact_phone = "000".to_string();
    r.emergency_contact_relationship = String::new();
    assert_eq!(
        check_fields(&r, false),
        vec![
            Rule::Name,
            Rule::NationalId,
            Rule::BpjsNumber,
            Rule::ContactName,
            Rule::ContactPhone,
            Rule::ContactRelationship
        ]
    );
    match validate(&r) {
        Err(AppError::ValidationError(errors)) => {
            let got: Vec<(String, String)> =
                errors.into_iter().map(|e| (e.field, e.message)).collect();
            let want = [
                ("name", "Name is required"),
                ("national_id", "National ID must be 16 digits"),
                ("bpjs_number", "BPJS number must be 13 digits"),
                ("emergency_contact_name", "Emergency contact name is required"),
                ("emergency_contact_phone", "Invalid emergency contact phone"),
                ("emergency_contact_relationship", "Emergency contact relationship is required"),
            ];
            assert_eq!(got.len(), want.len());
            for (g, w) in got.iter().zip(want.iter()) {
                assert_eq!((g.0.as_str(), g.1.as_str()), *w);
            }
        }
        other => panic!("unexpected {:?}", other),
    }
    let mut one = request();
    one.national_id = "12345678901234567".to_string();
    match validate(&one) {
        Err(AppError::ValidationError(errors)) => {
            assert_eq!(errors.len(), 1);
            assert_eq!(errors[0].field, "national_id");
        }
        other => panic!("unexpected {:?}", other),
    }
}

#[test]
fn lengths_count_characters() {
    let mut r = request();
    r.name = "é".to_string();
    r.national_id = "é234567890123456".to_string();
    assert!(check_fields(&r, true).is_empty());
}

#[test]
fn flatten_joins_issue_texts() {
    let flat = AppError::flatten_validation_errors(vec![
        FieldIssues {
            field: "name".to_string(),
            issues: vec![
                FieldIssue { code: "length".to_string(), message: Some("Name is required".to_string()) },
                FieldIssue { code: "ascii".to_string(), message: None },
            ],
        },
        FieldIssues {
            field: "phone".to_string(),
            issues: vec![FieldIssue { code: "Invalid emergency contact phone".to_string(), message: None }],
        },
        FieldIssues { field: "empty".to_string(), issues: vec![] },
    ]);
    assert_eq!(flat.len(), 3);
    assert_eq!((flat[0].field.as_str(), flat[0].message.as_str()), ("name", "Name is required, ascii"));
    assert_eq!(
        (flat[1].field.as_str(), flat[1].message.as_str()),
        ("phone", "Invalid emergency contact phone")
    );
    assert_eq!((flat[2].field.as_str(), flat[2].message.as_str()), ("empty", ""));
}

#[test]
fn error_texts_and_statuses() {
    let bad = AppError::BadRequest("nope".to_string());
    let missing = AppError::NotFound("gone".to_string());
    let inner = AppError::Internal("boom".to_string());
    let invalid = AppError::ValidationError(vec![ApiFieldError {
        field: "name".to_string(),
        message: "Name is required".to_string(),
    }]);
    assert_eq!(bad.to_string(), "Bad request: nope");
    assert_eq!(missing.to_string(), "Not found: gone");
    assert_eq!(inner.to_string(), "Internal server error: boom");
    assert_eq!(invalid.to_string(), "Validation error");
    assert_eq!(
        (bad.status_code(), invalid.status_code(), missing.status_code(), inner.status_code()),
        (400, 400, 404, 500)
    );

    let (status, body) = missing.into_response("req-1".to_string());
    assert_eq!(status, 404);
    assert_eq!(body.message, "gone");
    assert_eq!(body.request_id, "req-1");
    assert!(body.data.is_none());
    assert!(body.errors.is_none());

    let (status, body) = invalid.into_response("req-2".to_string());
    assert_eq!(status, 400);
    assert_eq!(body.message, "Validation failed");
    let errors = body.errors.unwrap();
    assert_eq!(errors.len(), 1);
    assert_eq!(errors[0].duplicate().field, "name");

    let ok = ApiResponse::success("Triage successful", 7u8, &RequestId("req-3".to_string()));
    assert_eq!(ok.message, "Triage successful");
    assert_eq!(ok.data, Some(7));
    assert_eq!(ok.request_id, "req-3");
    assert!(ok.errors.is_none());
}

const SETTINGS: &str = "
name: hms
version: 0.1.0
description: triage desk
database:
  url: postgres://localhost/hms
  driver: postgres
  direct_url: postgres://localhost/hms_direct
redis:
  official_url: redis://localhost
  upstash_redis_url: rediss://upstash
app:
  host: 0.0.0.0
  port: 8080
";

#[test]
fn settings_from_yaml() {
    let settings = AppConfig::from_yaml(SETTINGS).unwrap();
    assert_eq!(settings.name, "hms");
    assert_eq!(settings.version, "0.1.0");
    assert_eq!(settings.description, "triage desk");
    assert_eq!(settings.database.url, "postgres://localhost/hms");
    assert_eq!(settings.database.driver, "postgres");
    assert_eq!(settings.database.direct_url, "postgres://localhost/hms_direct");
    assert_eq!(settings.redis.official_url, "redis://localhost");
    assert_eq!(settings.redis.upstash_redis_url, "rediss://upstash");
    assert_eq!(settings.app.host, "0.0.0.0");
    assert_eq!(settings.app.port, 8080);
}

#[test]
fn settings_faults() {
    let without_driver = SETTINGS.replace("  driver: postgres\n", "");
    match AppConfig::from_yaml(&without_driver) {
        Err(ConfigFault::Unreadable { key }) => assert_eq!(key, "database.driver"),
        other => panic!("unexpected {:?}", other),
    }
    let big_port = SETTINGS.replace("8080", "70000");
    match AppConfig::from_yaml(&big_port) {
        Err(ConfigFault::PortOutOfRange { port }) => assert_eq!(port, 70000),
        other => panic!("unexpected {:?}", other),
    }
    let no_port = SETTINGS.replace("  port: 8080\n", "");
    assert!(matches!(AppConfig::from_yaml(&no_port), Err(ConfigFault::PortUnreadable)));
    let word_port = SETTINGS.replace("8080", "http");
    assert!(matches!(AppConfig::from_yaml(&word_port), Err(ConfigFault::PortUnreadable)));
    match AppConfig::from_yaml("") {
        Err(ConfigFault::Unreadable { key }) => assert_eq!(key, "name"),
        other => panic!("unexpected {:?}", other),
    }
    assert!(matches!(AppConfig::from_yaml("name: [unclosed"), Err(ConfigFault::Malformed)));
    assert!(matches!(AppConfig::get_key("name", "name: [unclosed"), Err(ConfigFault::Malformed)));
    assert_eq!(AppConfig::port_of(-32768).unwrap(), i16::MIN);
    assert!(matches!(AppConfig::port_of(32768), Err(ConfigFault::PortOutOfRange { port: 32768 })));
}

#[test]
fn referral_file_names() {
    assert_eq!(file_extension("scan.PDF"), "pdf");
    assert_eq!(file_extension("archive.tar.Jpeg"), "jpeg");
    assert_eq!(file_extension("noextension"), "noextension");
    assert_eq!(file_extension("trailing."), "");
    assert_eq!(file_extension(""), "");
    assert_eq!(file_extension(".png"), "png");
    assert_eq!(raw_extension("Photo.JPG"), "JPG");
    assert_eq!(raw_extension("é.pñg"), "pñg");
    for ok in ["pdf", "png", "jpg", "jpeg"] {
        assert!(valid_extension(ok));
    }
    for bad in ["PDF", "exe", "", "jpe", "pdf "] {
        assert!(!valid_extension(bad));
    }
    assert_eq!(
        referral_file_name("abc-123", 7, 42, "pdf"),
        "referral_file-abc-123-patient_7-visit_42.pdf"
    );
    assert_eq!(REFERRAL_BUCKET, "hms-temporal-bucket");
    assert_eq!(
        referral_url(REFERRAL_BUCKET, "f.png"),
        "http://localhost:9000/hms-temporal-bucket/f.png"
    );
    assert_eq!(MAX_FILE_SIZE, 10 * 1024 * 1024);
}

#[test]
fn upload_chunks_up_to_the_limit() {
    let mut bytes = Vec::new();
    assert!(take_chunk(&mut bytes, &[1, 2, 3], 5).is_ok());
    assert!(take_chunk(&mut bytes, &[], 5).is_ok());
    assert!(take_chunk(&mut bytes, &[4, 5], 5).is_ok());
    assert_eq!(bytes, vec![1, 2, 3, 4, 5]);
    match take_chunk(&mut bytes, &[6], 5) {
        Err(AppError::BadRequest(m)) => assert_eq!(m, "File too large"),
        other => panic!("unexpected {:?}", other),
    }
    assert_eq!(bytes, vec![1, 2, 3, 4, 5]);
    assert!(take_chunk(&mut bytes, &[], 5).is_ok());
    assert!(matches!(take_chunk(&mut bytes, &[], 4), Err(AppError::BadRequest(_))));
}

#[test]
fn settings_single_key() {
    assert_eq!(AppConfig::get_key("database.driver", SETTINGS).unwrap(), "postgres");
    assert_eq!(AppConfig::get_key("app.port", SETTINGS).unwrap(), "8080");
    match AppConfig::get_key("database.password", SETTINGS) {
        Err(ConfigFault::Unreadable { key }) => assert_eq!(key, "database.password"),
        other => panic!("unexpected {:?}", other),
    }
    assert!(AppConfig::get_key("database", SETTINGS).is_err());
}

#[test]
fn birth_dates() {
    assert_eq!(BIRTH_DATE_FORMAT, "%Y-%m-%d");
    assert_eq!(BirthDate::parse("1990-04-12"), Some(BirthDate { year: 1990, month: 4, day: 12 }));
    assert_eq!(BirthDate::parse("2000-02-29"), Some(BirthDate { year: 2000, month: 2, day: 29 }));
    assert_eq!(BirthDate::parse("1990-02-30"), None);
    assert_eq!(BirthDate::parse("12-04-1990"), None);
    assert_eq!(BirthDate::parse("1990-04-12T10:00:00"), None);
    assert_eq!(BirthDate::parse(""), None);
    assert_eq!(BirthDate::from_parts(Some((1, 2, 3))), Some(BirthDate { year: 1, month: 2, day: 3 }));
    assert_eq!(BirthDate::from_parts(None), None);
    assert_eq!(BirthDate::from_parts(Some((2000, 13, 1))), None);
    assert_eq!(BirthDate::from_parts(Some((2000, 0, 1))), None);
    assert_eq!(BirthDate::from_parts(Some((2000, 12, 32))), None);
    assert_eq!(BirthDate::from_parts(Some((2000, 12, 0))), None);
    assert_eq!(
        BirthDate::from_parts(Some((-4, 12, 31))),
        Some(BirthDate { year: -4, month: 12, day: 31 })
    );
}

#[test]
fn names_read_back() {
    for v in [VisitType::COMMON, VisitType::BPJS] {
        assert_eq!(VisitType::from_name(&v.to_string()), Some(v));
    }
    for v in [
        TicketStatus::Waiting,
        TicketStatus::Called,
        TicketStatus::Done,
        TicketStatus::Cancelled,
        TicketStatus::Skipped,
    ] {
        assert_eq!(TicketStatus::from_name(&v.to_string()), Some(v));
    }
    for v in [
        IntentStatus::Pending,
        IntentStatus::Waiting,
        IntentStatus::Called,
        IntentStatus::Done,
        IntentStatus::Cancelled,
    ] {
        assert_eq!(IntentStatus::from_name(&v.to_string()), Some(v));
    }
    for v in [
        DocumentStatus::Waiting,
        DocumentStatus::Scanning,
        DocumentStatus::Uploaded,
        DocumentStatus::Failed,
    ] {
        assert_eq!(DocumentStatus::from_name(&v.to_string()), Some(v));
    }
    for v in [Gender::Male, Gender::Female] {
        assert_eq!(Gender::from_name(&v.to_string()), Some(v));
    }
    for v in [
        BloodType::APlus,
        BloodType::AMinus,
        BloodType::BPlus,
        BloodType::BMinus,
        BloodType::ABPlus,
        BloodType::ABMinus,
        BloodType::OPlus,
        BloodType::OMinus,
    ] {
        assert_eq!(BloodType::from_name(&v.to_string()), Some(v));
    }
    assert_eq!(TicketStatus::from_name("CANCELED"), None);
    assert_eq!(TicketStatus::from_name("waiting"), None);
    assert_eq!(VisitType::from_name("common"), None);
    assert_eq!(Gender::from_name("male"), None);
    assert_eq!(BloodType::from_name("A+"), None);
    assert_eq!(IntentStatus::from_name("SKIPPED"), None);
    assert_eq!(DocumentStatus::from_name(""), None);
}

fn texts() -> SettingTexts {
    SettingTexts {
        name: "hms".to_string(),
        version: "1".to_string(),
        description: "desk".to_string(),
        database_url: "db".to_string(),
        database_driver: "pg".to_string(),
        database_direct_url: "direct".to_string(),
        redis_official_url: "r1".to_string(),
        redis_upstash_redis_url: "r2".to_string(),
        app_host: "localhost".to_string(),
    }
}

#[test]
fn settings_from_values() {
    let s = AppConfig::from_values(Ok(texts()), Some(8080)).unwrap();
    assert_eq!((s.name.as_str(), s.version.as_str(), s.description.as_str()), ("hms", "1", "desk"));
    assert_eq!(
        (s.database.url.as_str(), s.database.driver.as_str(), s.database.direct_url.as_str()),
        ("db", "pg", "direct")
    );
    assert_eq!((s.redis.official_url.as_str(), s.redis.upstash_redis_url.as_str()), ("r1", "r2"));
    assert_eq!((s.app.host.as_str(), s.app.port), ("localhost", 8080));
    assert_eq!(AppConfig::from_values(Ok(texts()), Some(-32768)).unwrap().app.port, i16::MIN);
    assert!(matches!(
        AppConfig::from_values(Ok(texts()), Some(32768)),
        Err(ConfigFault::PortOutOfRange { port: 32768 })
    ));
    assert!(matches!(AppConfig::from_values(Ok(texts()), None), Err(ConfigFault::PortUnreadable)));
    for port in [None, Some(80), Some(99999)] {
        match AppConfig::from_values(Err("app.host".to_string()), port) {
            Err(ConfigFault::Unreadable { key }) => assert_eq!(key, "app.host"),
            other => panic!("unexpected {:?}", other),
        }
    }
}

#[test]
fn settings_lookup_outcome() {
    assert_eq!(text_or_fault("a.b", Ok("text".to_string())).unwrap(), "text");
    match text_or_fault("a.b", Err(config::ConfigError::NotFound("other".to_string()))) {
        Err(ConfigFault::Unreadable { key }) => assert_eq!(key, "a.b"),
        other => panic!("unexpected {:?}", other),
    }
}
