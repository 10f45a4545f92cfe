use hospital_management_system::dto::{ReferralUploadMetadata, ReferralUploadResponse};
use hospital_management_system::error::AppError;
use hospital_management_system::model::{
    BirthDate, BloodType, CreateTriageRequest, DocumentStatus, Gender, IntentStatus, Patient,
    QueueTicket, TicketStatus, VisitIntent, VisitType,
};
use hospital_management_system::repo::TriageRepo;
use hospital_management_system::service::TriageService;

fn intake(national_id: &str, visit_type: VisitType) -> CreateTriageRequest {
    CreateTriageRequest {
        name: "Ani".to_string(),
        date_of_birth: BirthDate { year: 1990, month: 4, day: 12 },
        national_id: national_id.to_string(),
        bpjs_number: Some("0001234567890".to_string()),
        gender: Gender::Female,
        emergency_contact_name: "Budi".to_string(),
        emergency_contact_phone: "+628123456789".to_string(),
        emergency_contact_relationship: "brother".to_string(),
        blood_type: BloodType::OPlus,
        known_allergies: Some("dust".to_string()),
        visit_type,
    }
}

fn patient(id: i32, national_id: &str) -> Patient {
    Patient::from_request(id, &intake(national_id, VisitType::COMMON), 5)
}

fn intent(id: i32, patient_id: i32) -> VisitIntent {
    VisitIntent {
        id,
        patient_id,
        visit_type: VisitType::COMMON,
        referral_document_id: None,
        status: IntentStatus::Waiting,
        created_at: 5,
        updated_at: 5,
    }
}

fn ticket(id: i32, intent_id: i32, number: i32, queue_type: VisitType) -> QueueTicket {
    QueueTicket {
        id,
        visit_intent_id: intent_id,
        queue_number: number,
        queue_type,
        status: TicketStatus::Waiting,
        called_at: None,
        done_at: None,
        created_at: 5,
    }
}

fn rows(tickets: Vec<QueueTicket>) -> Option<TriageRepo> {
    TriageRepo::from_rows(
        vec![patient(1, "0000000000000001"), patient(2, "0000000000000002")],
        vec![intent(1, 1), intent(2, 2), intent(3, 1)],
        tickets,
        vec![],
    )
}

#[test]
fn patient_from_request() {
    let p = patient(3, "0000000000000009");
    assert_eq!(p.id, 3);
    assert_eq!(p.national_id, "0000000000000009");
    assert_eq!(p.known_allergies, Some("dust".to_string()));
    assert_eq!((p.created_at, p.updated_at), (5, 5));
    let copy = p.duplicate();
    assert_eq!(copy.name, p.name);
    assert_eq!(copy.bpjs_number, p.bpjs_number);
    assert_eq!(copy.blood_type, BloodType::OPlus);
}

#[test]
fn consistent_rows_are_accepted() {
    let repo = rows(vec![
        ticket(1, 1, 1, VisitType::COMMON),
        ticket(2, 3, 1, VisitType::BPJS),
        ticket(3, 2, 2, VisitType::COMMON),
    ])
    .unwrap();
    assert!(repo.consistent());
    assert_eq!(repo.tickets.len(), 3);
    assert!(TriageRepo::new().consistent());
}

#[test]
fn inconsistent_rows_are_refused() {
    // A repeated number within a queue type.
    assert!(rows(vec![ticket(1, 1, 1, VisitType::COMMON), ticket(2, 2, 1, VisitType::COMMON)])
        .is_none());
    // A gap in the numbers.
    assert!(rows(vec![ticket(1, 1, 2, VisitType::COMMON)]).is_none());
    // Two tickets of one intent.
    assert!(rows(vec![ticket(1, 1, 1, VisitType::COMMON), ticket(2, 1, 2, VisitType::COMMON)])
        .is_none());
    // A ticket of no intent.
    assert!(rows(vec![ticket(1, 4, 1, VisitType::COMMON)]).is_none());
    // Identifiers out of order, repeated, or below 1.
    assert!(rows(vec![ticket(2, 1, 1, VisitType::COMMON), ticket(1, 2, 2, VisitType::COMMON)])
        .is_none());
    assert!(rows(vec![ticket(2, 1, 1, VisitType::COMMON), ticket(2, 2, 2, VisitType::COMMON)])
        .is_none());
    assert!(rows(vec![ticket(0, 1, 1, VisitType::COMMON)]).is_none());
    // A called ticket without the time of the call.
    let mut called = ticket(1, 1, 1, VisitType::COMMON);
    called.status = TicketStatus::Called;
    assert!(rows(vec![called]).is_none());
    called.called_at = Some(6);
    assert!(rows(vec![called]).is_some());
    let mut done = called;
    done.status = TicketStatus::Done;
    assert!(rows(vec![done]).is_none());
    done.done_at = Some(7);
    assert!(rows(vec![done]).is_some());
    // Two patients with one national identity number.
    assert!(TriageRepo::from_rows(
        vec![patient(1, "0000000000000001"), patient(2, "0000000000000001")],
        vec![],
        vec![],
        vec![]
    )
    .is_none());
    // An intent of no patient.
    assert!(TriageRepo::from_rows(vec![], vec![intent(1, 1)], vec![], vec![]).is_none());
}

#[test]
fn loaded_rows_continue_the_numbering() {
    let mut repo = rows(vec![
        ticket(1, 1, 1, VisitType::COMMON),
        ticket(2, 2, 2, VisitType::COMMON),
    ])
    .unwrap();
    let t = repo.create_queue_ticket(3, VisitType::COMMON, 9).unwrap();
    assert_eq!((t.id, t.queue_number), (3, 3));
    assert!(repo.consistent());
}

#[test]
fn referral_upload_is_recorded() {
    let mut desk = TriageService::new();
    desk.perform_triage(intake("0000000000000001", VisitType::BPJS), 10).unwrap();
    let meta = ReferralUploadMetadata {
        extension: "pdf".to_string(),
        original_filename: "letter.PDF".to_string(),
        file_bytes: vec![1, 2, 3, 4],
    };
    let answer = desk.handle_referral_upload(1, 1, meta, "token", 20).unwrap();
    assert_eq!(answer, ReferralUploadResponse { status: DocumentStatus::Waiting, created_at: 20 });
    assert_eq!(answer.status.to_string(), "WAITING");
    let d = &desk.repo.documents[0];
    assert_eq!(d.id, 1);
    assert_eq!((d.patients_id, d.visit_intent_id, d.file_size), (1, 1, 4));
    assert_eq!(d.file_name, "referral_file-token-patient_1-visit_1.pdf");
    assert_eq!(
        d.referral_document_url,
        "http://localhost:9000/hms-temporal-bucket/referral_file-token-patient_1-visit_1.pdf"
    );
    assert_eq!(d.scanned_at, None);
    assert_eq!(desk.repo.intents[0].referral_document_id, Some(1));
    assert_eq!(desk.repo.intents[0].updated_at, 10);

    let meta = ReferralUploadMetadata {
        extension: "png".to_string(),
        original_filename: "x.png".to_string(),
        file_bytes: vec![],
    };
    match desk.handle_referral_upload(2, 1, meta, "t", 30) {
        Err(AppError::NotFound(m)) => assert_eq!(m, "Visit intent not found"),
        other => panic!("unexpected {:?}", other),
    }
    assert_eq!(desk.repo.documents.len(), 1);
    assert!(desk.repo.consistent());
}

#[test]
fn identifiers_may_have_gaps() {
    let mut repo = TriageRepo::from_rows(
        vec![patient(3, "0000000000000001"), patient(8, "0000000000000002")],
        vec![intent(2, 8), intent(5, 3), intent(9, 8)],
        vec![ticket(4, 5, 1, VisitType::COMMON), ticket(7, 2, 2, VisitType::COMMON)],
        vec![],
    )
    .unwrap();
    assert!(repo.consistent());
    assert_eq!(
        (repo.next_patient_id(), repo.next_intent_id(), repo.next_ticket_id(), repo.next_document_id()),
        (Some(9), Some(10), Some(8), Some(1))
    );

    // New rows take the identifier after the last one.
    let p = repo
        .find_or_create_patient(&intake("0000000000000003", VisitType::COMMON), 6)
        .unwrap();
    assert_eq!(p.id, 9);
    let v = repo.create_visit_intent(3, &intake("0000000000000001", VisitType::COMMON), 6).unwrap();
    assert_eq!((v.id, v.patient_id), (10, 3));
    let t = repo.create_queue_ticket(9, VisitType::COMMON, 6).unwrap();
    assert_eq!((t.id, t.visit_intent_id, t.queue_number), (8, 9, 3));
    // A patient or an intent that is not there owns nothing.
    assert!(matches!(
        repo.create_visit_intent(4, &intake("0000000000000001", VisitType::COMMON), 6),
        Err(AppError::Internal(_))
    ));
    assert!(matches!(repo.create_queue_ticket(3, VisitType::COMMON, 6), Err(AppError::Internal(_))));

    // Rows are found by their identifiers, wherever they stand.
    let called = repo.call_patient(2, VisitType::COMMON, 7).unwrap();
    assert_eq!((called.id, called.visit_intent_id), (7, 2));
    assert_eq!(repo.tickets[1].status, TicketStatus::Called);
    assert_eq!(repo.intents[0].status, IntentStatus::Called);
    assert_eq!(repo.intents[1].status, IntentStatus::Waiting);
    let queue = repo.get_queue(&VisitType::COMMON);
    let lines: Vec<(i32, i32)> = queue.iter().map(|i| (i.queue_number, i.patient_id)).collect();
    assert_eq!(lines, vec![(1, 3), (3, 8)]);
    repo.update_visit_intent_status(9, IntentStatus::Done, 8).unwrap();
    assert_eq!(repo.intents[2].status, IntentStatus::Done);
    assert!(matches!(
        repo.update_visit_intent_status(1, IntentStatus::Done, 8),
        Err(AppError::NotFound(_))
    ));
    let d = repo
        .upload_referral_docs("f.pdf".to_string(), 5, 3, &vec![1, 2], "u".to_string(), 9)
        .unwrap();
    assert_eq!(d.id, 1);
    assert_eq!(repo.intents[1].referral_document_id, Some(1));
    assert!(repo.consistent());
}

#[test]
fn last_identifier_leaves_none() {
    let mut repo = TriageRepo::from_rows(
        vec![patient(i32::MAX, "0000000000000001")],
        vec![intent(i32::MAX, i32::MAX)],
        vec![],
        vec![],
    )
    .unwrap();
    assert_eq!(repo.next_patient_id(), None);
    assert_eq!(repo.next_intent_id(), None);
    assert!(matches!(
        repo.find_or_create_patient(&intake("0000000000000002", VisitType::COMMON), 6),
        Err(AppError::Internal(_))
    ));
    // The registered patient is still found.
    let p = repo
        .find_or_create_patient(&intake("0000000000000001", VisitType::COMMON), 6)
        .unwrap();
    assert_eq!(p.id, i32::MAX);
    assert!(matches!(
        repo.create_visit_intent(i32::MAX, &intake("0000000000000001", VisitType::COMMON), 6),
        Err(AppError::Internal(_))
    ));
    let t = repo.create_queue_ticket(i32::MAX, VisitType::BPJS, 6).unwrap();
    assert_eq!((t.id, t.queue_number), (1, 1));
    assert_eq!(repo.patients.len(), 1);
    assert_eq!(repo.intents.len(), 1);
}
