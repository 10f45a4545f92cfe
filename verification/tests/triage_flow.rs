use hospital_management_system::dto::{
    CreateTriageResponse, TriagePatientCalled, TriagePatientCancel, TriageQueueComplete,
    TriageQueueStatus,
};
use hospital_management_system::error::AppError;
use hospital_management_system::model::{
    BirthDate, BloodType, CreateTriageRequest, Gender, IntentStatus, TicketStatus, VisitType,
};
use hospital_management_system::repo::TriageRepo;
use hospital_management_system::service::TriageService;

const SECOND: i64 = 1_000_000;
const T0: i64 = 1_750_000_000 * SECOND;

fn request(national_id: &str, name: &str, visit_type: VisitType) -> CreateTriageRequest {
    CreateTriageRequest {
        name: name.to_string(),
        date_of_birth: BirthDate { year: 1990, month: 4, day: 12 },
        national_id: national_id.to_string(),
        bpjs_number: None,
        gender: Gender::Female,
        emergency_contact_name: "Budi".to_string(),
        emergency_contact_phone: "+628123456789".to_string(),
        emergency_contact_relationship: "brother".to_string(),
        blood_type: BloodType::OPlus,
        known_allergies: None,
        visit_type,
    }
}

fn bpjs_request(national_id: &str, bpjs_number: Option<&str>) -> CreateTriageRequest {
    let mut r = request(national_id, "Sari", VisitType::BPJS);
    r.bpjs_number = bpjs_number.map(|s| s.to_string());
    r
}

#[test]
fn intake_issues_first_ticket() {
    let mut desk = TriageService::new();
    let answer = desk
        .perform_triage(request("1234567890123456", "Ani", VisitType::COMMON), T0)
        .unwrap();
    assert_eq!(
        answer,
        CreateTriageResponse {
            patient_id: 1,
            visit_intent_id: 1,
            queue_number: 1,
            queue_type: VisitType::COMMON,
            status: TicketStatus::Waiting,
        }
    );
    assert_eq!(answer.queue_type.to_string(), "COMMON");
    assert_eq!(answer.status.to_string(), "WAITING");
    assert_eq!(desk.repo.intents[0].status, IntentStatus::Waiting);
    assert_eq!(desk.repo.tickets[0].created_at, T0);
    assert_eq!(desk.repo.tickets[0].called_at, None);
}

#[test]
fn second_intake_reuses_patient() {
    let mut desk = TriageService::new();
    let first = desk
        .perform_triage(request("1234567890123456", "Ani", VisitType::COMMON), T0)
        .unwrap();
    let second = desk
        .perform_triage(request("1234567890123456", "Somebody Else", VisitType::COMMON), T0 + 5)
        .unwrap();
    assert_eq!(second.patient_id, first.patient_id);
    assert_eq!(second.visit_intent_id, 2);
    assert_eq!(second.queue_number, 2);
    assert_eq!(desk.repo.patients.len(), 1);
    assert_eq!(desk.repo.patients[0].name, "Ani");
    assert_eq!(desk.repo.patients[0].updated_at, T0);
}

#[test]
fn registration_is_idempotent_on_national_id() {
    let mut repo = TriageRepo::new();
    let a = repo
        .find_or_create_patient(&request("1111222233334444", "Ani", VisitType::COMMON), T0)
        .unwrap();
    let b = repo
        .find_or_create_patient(&request("9999222233334444", "Bayu", VisitType::COMMON), T0 + 1)
        .unwrap();
    let again = repo
        .find_or_create_patient(&request("1111222233334444", "Changed", VisitType::BPJS), T0 + 2)
        .unwrap();
    assert_eq!((a.id, b.id, again.id), (1, 2, 1));
    assert_eq!(again.name, "Ani");
    assert_eq!(again.created_at, T0);
    assert_eq!(again.known_allergies, Some(String::new()));
    assert_eq!(repo.patients.len(), 2);
}

#[test]
fn sequential_intakes_number_without_gaps() {
    let mut desk = TriageService::new();
    for k in 1..=20i32 {
        let id = format!("{:016}", k);
        let answer = desk.perform_triage(request(&id, "P", VisitType::COMMON), T0 + k as i64).unwrap();
        assert_eq!(answer.queue_number, k);
        assert_eq!(answer.patient_id, k);
        assert_eq!(answer.visit_intent_id, k);
    }
}

#[test]
fn queue_types_number_independently() {
    let mut desk = TriageService::new();
    let c1 = desk.perform_triage(request("0000000000000001", "A", VisitType::COMMON), T0).unwrap();
    let b1 = desk.perform_triage(bpjs_request("0000000000000002", Some("0001234567890")), T0).unwrap();
    let c2 = desk.perform_triage(request("0000000000000003", "C", VisitType::COMMON), T0).unwrap();
    let b2 = desk.perform_triage(bpjs_request("0000000000000004", Some("0001234567891")), T0).unwrap();
    assert_eq!((c1.queue_number, b1.queue_number, c2.queue_number, b2.queue_number), (1, 1, 2, 2));
    assert_eq!(b1.queue_type.to_string(), "BPJS");
    assert_eq!((b2.visit_intent_id, b2.patient_id), (4, 4));
}

#[test]
fn cancelled_and_done_tickets_still_count() {
    let mut repo = TriageRepo::new();
    let req = request("0000000000000001", "A", VisitType::COMMON);
    let p = repo.find_or_create_patient(&req, T0).unwrap();
    for _ in 0..3 {
        let v = repo.create_visit_intent(p.id, &req, T0).unwrap();
        repo.create_queue_ticket(v.id, VisitType::COMMON, T0).unwrap();
    }
    repo.cancel_patient_queue(1, &VisitType::COMMON).unwrap();
    repo.call_patient(2, VisitType::COMMON, T0 + 1).unwrap();
    repo.triage_queue_complete(2, VisitType::COMMON, T0 + 2).unwrap();
    let v = repo.create_visit_intent(p.id, &req, T0 + 3).unwrap();
    let t = repo.create_queue_ticket(v.id, VisitType::COMMON, T0 + 3).unwrap();
    assert_eq!(t.queue_number, 4);
    assert_eq!(t.id, 4);
}

#[test]
fn bpjs_intake_needs_referral_reference() {
    let mut desk = TriageService::new();
    for missing in [None, Some(""), Some("  \t ")] {
        match desk.perform_triage(bpjs_request("0000000000000001", missing), T0) {
            Err(AppError::BadRequest(m)) => {
                assert_eq!(m, "BPJS visit requires a referral reference")
            }
            other => panic!("unexpected {:?}", other),
        }
    }
    assert_eq!(desk.repo.patients.len(), 0);
    assert_eq!(desk.repo.intents.len(), 0);
    assert_eq!(desk.repo.tickets.len(), 0);
    assert!(desk.perform_triage(bpjs_request("0000000000000001", Some("0001234567890")), T0).is_ok());
}

#[test]
fn call_patient_then_second_call_not_found() {
    let mut repo = TriageRepo::new();
    let req = request("1234567890123456", "Ani", VisitType::COMMON);
    let p = repo.find_or_create_patient(&req, T0).unwrap();
    let v = repo.create_visit_intent(p.id, &req, T0).unwrap();
    repo.create_queue_ticket(v.id, VisitType::COMMON, T0).unwrap();

    let called = repo.call_patient(1, VisitType::COMMON, T0 + 7).unwrap();
    assert_eq!(called.status, TicketStatus::Called);
    assert_eq!(called.called_at, Some(T0 + 7));
    assert_eq!(called.done_at, None);
    assert_eq!(repo.tickets[0], called);
    assert_eq!(repo.intents[0].status, IntentStatus::Called);
    assert_eq!(repo.intents[0].updated_at, T0 + 7);

    match repo.call_patient(1, VisitType::COMMON, T0 + 8) {
        Err(AppError::NotFound(m)) => {
            assert_eq!(m, "Queue COMMON with number 1 is not found or has been called")
        }
        other => panic!("unexpected {:?}", other),
    }
    assert_eq!(repo.tickets[0], called);
    match repo.call_patient(9, VisitType::COMMON, T0 + 8) {
        Err(AppError::NotFound(m)) => {
            assert_eq!(m, "Queue COMMON with number 9 is not found or has been called")
        }
        other => panic!("unexpected {:?}", other),
    }
    assert!(matches!(repo.call_patient(1, VisitType::BPJS, T0 + 8), Err(AppError::NotFound(_))));
}

#[test]
fn complete_before_call_is_bad_request() {
    let mut repo = TriageRepo::new();
    let req = request("1234567890123456", "Ani", VisitType::COMMON);
    let p = repo.find_or_create_patient(&req, T0).unwrap();
    let v = repo.create_visit_intent(p.id, &req, T0).unwrap();
    let waiting = repo.create_queue_ticket(v.id, VisitType::COMMON, T0).unwrap();

    match repo.triage_queue_complete(1, VisitType::COMMON, T0 + 1) {
        Err(AppError::BadRequest(m)) => {
            assert_eq!(m, "Queue COMMON with number 1 is not currently being called")
        }
        other => panic!("unexpected {:?}", other),
    }
    assert_eq!(repo.tickets[0], waiting);
    match repo.triage_queue_complete(2, VisitType::COMMON, T0 + 1) {
        Err(AppError::NotFound(m)) => assert_eq!(m, "Queue COMMON with number 2 is not found"),
        other => panic!("unexpected {:?}", other),
    }

    repo.call_patient(1, VisitType::COMMON, T0 + 2).unwrap();
    let done = repo.triage_queue_complete(1, VisitType::COMMON, T0 + 3).unwrap();
    assert_eq!(done.status, TicketStatus::Done);
    assert_eq!(done.called_at, Some(T0 + 2));
    assert_eq!(done.done_at, Some(T0 + 3));
    assert_eq!(repo.intents[0].status, IntentStatus::Done);
    assert!(matches!(
        repo.triage_queue_complete(1, VisitType::COMMON, T0 + 4),
        Err(AppError::BadRequest(_))
    ));
}

#[test]
fn cancel_waiting_ticket() {
    let mut repo = TriageRepo::new();
    let req = request("1234567890123456", "Ani", VisitType::COMMON);
    let p = repo.find_or_create_patient(&req, T0).unwrap();
    for _ in 0..2 {
        let v = repo.create_visit_intent(p.id, &req, T0).unwrap();
        repo.create_queue_ticket(v.id, VisitType::COMMON, T0).unwrap();
    }
    let cancelled = repo.cancel_patient_queue(2, &VisitType::COMMON).unwrap();
    assert_eq!(cancelled.status, TicketStatus::Cancelled);
    assert_eq!(cancelled.status.to_string(), "CANCELLED");
    assert_eq!(repo.tickets[1], cancelled);
    // The visit intent does not follow a cancellation.
    assert_eq!(repo.intents[1].status, IntentStatus::Waiting);
    // A cancelled ticket was neither called nor is it done: cancelling it
    // again leaves it cancelled.
    let again = repo.cancel_patient_queue(2, &VisitType::COMMON).unwrap();
    assert_eq!(again, cancelled);
    // It can no longer be called or completed.
    assert!(matches!(repo.call_patient(2, VisitType::COMMON, T0), Err(AppError::NotFound(_))));
    assert!(matches!(
        repo.triage_queue_complete(2, VisitType::COMMON, T0),
        Err(AppError::BadRequest(_))
    ));
}

#[test]
fn cancel_called_or_done_is_bad_request() {
    let mut repo = TriageRepo::new();
    let req = request("1234567890123456", "Ani", VisitType::COMMON);
    let p = repo.find_or_create_patient(&req, T0).unwrap();
    let v = repo.create_visit_intent(p.id, &req, T0).unwrap();
    repo.create_queue_ticket(v.id, VisitType::COMMON, T0).unwrap();
    let called = repo.call_patient(1, VisitType::COMMON, T0 + 1).unwrap();
    match repo.cancel_patient_queue(1, &VisitType::COMMON) {
        Err(AppError::BadRequest(m)) => {
            assert_eq!(m, "Queue COMMON with number 1 is not currently being called")
        }
        other => panic!("unexpected {:?}", other),
    }
    assert_eq!(repo.tickets[0], called);
    let done = repo.triage_queue_complete(1, VisitType::COMMON, T0 + 2).unwrap();
    assert!(matches!(repo.cancel_patient_queue(1, &VisitType::COMMON), Err(AppError::BadRequest(_))));
    assert_eq!(repo.tickets[0], done);
    match repo.cancel_patient_queue(5, &VisitType::COMMON) {
        Err(AppError::NotFound(m)) => assert_eq!(m, "Queue COMMON with number 5 is not found"),
        other => panic!("unexpected {:?}", other),
    }
}

#[test]
fn status_lookup() {
    let mut repo = TriageRepo::new();
    let req = bpjs_request("1234567890123456", Some("0001234567890"));
    let p = repo.find_or_create_patient(&req, T0).unwrap();
    let v = repo.create_visit_intent(p.id, &req, T0).unwrap();
    let t = repo.create_queue_ticket(v.id, VisitType::BPJS, T0).unwrap();
    assert_eq!(repo.get_status_by_queue_number(1, VisitType::BPJS).unwrap(), t);
    match repo.get_status_by_queue_number(-3, VisitType::BPJS) {
        Err(AppError::NotFound(m)) => assert_eq!(m, "Queue BPJS is not found with number -3"),
        other => panic!("unexpected {:?}", other),
    }
    assert!(matches!(
        repo.get_status_by_queue_number(1, VisitType::COMMON),
        Err(AppError::NotFound(_))
    ));
}

#[test]
fn store_refuses_rows_without_owner() {
    let mut repo = TriageRepo::new();
    let req = request("1234567890123456", "Ani", VisitType::COMMON);
    assert!(matches!(repo.create_visit_intent(1, &req, T0), Err(AppError::Internal(_))));
    assert!(matches!(repo.create_queue_ticket(1, VisitType::COMMON, T0), Err(AppError::Internal(_))));
    let p = repo.find_or_create_patient(&req, T0).unwrap();
    let v = repo.create_visit_intent(p.id, &req, T0).unwrap();
    repo.create_queue_ticket(v.id, VisitType::COMMON, T0).unwrap();
    // One ticket per intent.
    assert!(matches!(
        repo.create_queue_ticket(v.id, VisitType::COMMON, T0),
        Err(AppError::Internal(_))
    ));
    assert_eq!(repo.tickets.len(), 1);
    match repo.update_visit_intent_status(7, IntentStatus::Done, T0) {
        Err(AppError::NotFound(m)) => assert_eq!(m, "Visit intent not found"),
        other => panic!("unexpected {:?}", other),
    }
    repo.update_visit_intent_status(1, IntentStatus::Cancelled, T0 + 9).unwrap();
    assert_eq!(repo.intents[0].status, IntentStatus::Cancelled);
    assert_eq!(repo.intents[0].updated_at, T0 + 9);
    assert_eq!(repo.intents[0].created_at, T0);
}

#[test]
fn queue_lists_waiting_tickets_oldest_first() {
    let mut repo = TriageRepo::new();
    let req = request("1234567890123456", "Ani", VisitType::COMMON);
    let other = request("6543210987654321", "Bayu", VisitType::BPJS);
    let p = repo.find_or_create_patient(&req, T0).unwrap();
    let q = repo.find_or_create_patient(&other, T0).unwrap();
    // Creation times out of step with the numbers.
    let times = [T0 + 50, T0 + 10, T0 + 30, T0 + 10, T0 + 40];
    for (k, at) in times.iter().enumerate() {
        let owner = if k % 2 == 0 { p.id } else { q.id };
        let v = repo.create_visit_intent(owner, &req, *at).unwrap();
        repo.create_queue_ticket(v.id, VisitType::COMMON, *at).unwrap();
    }
    let v = repo.create_visit_intent(q.id, &other, T0).unwrap();
    repo.create_queue_ticket(v.id, VisitType::BPJS, T0).unwrap();
    repo.call_patient(3, VisitType::COMMON, T0 + 60).unwrap();

    let queue = repo.get_queue(&VisitType::COMMON);
    let numbers: Vec<i32> = queue.iter().map(|i| i.queue_number).collect();
    assert_eq!(numbers, vec![2, 4, 5, 1]);
    let patients: Vec<i32> = queue.iter().map(|i| i.patient_id).collect();
    assert_eq!(patients, vec![2, 2, 1, 1]);
    assert!(queue.iter().all(|i| i.status == TicketStatus::Waiting));
    assert_eq!(queue[0].created_at, T0 + 10);
    assert_eq!(queue[3].created_at, T0 + 50);

    let bpjs = repo.get_queue(&VisitType::BPJS);
    assert_eq!(bpjs.len(), 1);
    assert_eq!((bpjs[0].queue_number, bpjs[0].patient_id), (1, 2));
    assert!(TriageRepo::new().get_queue(&VisitType::COMMON).is_empty());
}

#[test]
fn service_call_is_served_from_cache_until_it_expires() {
    let mut desk = TriageService::new();
    desk.perform_triage(request("1234567890123456", "Ani", VisitType::COMMON), T0).unwrap();
    let first = desk.call_patient("common".to_string(), 1, T0 + SECOND).unwrap();
    assert_eq!(
        first,
        TriagePatientCalled { queue_number: 1, queue_type: VisitType::COMMON, called_at: T0 + SECOND }
    );
    // Within the time to live the earlier answer is served again.
    let again = desk.call_patient("Common".to_string(), 1, T0 + 300 * SECOND).unwrap();
    assert_eq!(again, first);
    // Once it has expired the store decides: the ticket no longer waits.
    match desk.call_patient("COMMON".to_string(), 1, T0 + 301 * SECOND) {
        Err(AppError::NotFound(m)) => {
            assert_eq!(m, "Queue COMMON with number 1 is not found or has been called")
        }
        other => panic!("unexpected {:?}", other),
    }
}

#[test]
fn service_complete_and_cancel() {
    let mut desk = TriageService::new();
    desk.perform_triage(request("1234567890123456", "Ani", VisitType::COMMON), T0).unwrap();
    desk.perform_triage(request("1234567890123456", "Ani", VisitType::COMMON), T0).unwrap();
    assert!(matches!(
        desk.triage_complete("common".to_string(), 1, T0 + 1),
        Err(AppError::BadRequest(_))
    ));
    desk.call_patient("common".to_string(), 1, T0 + 2).unwrap();
    let done = desk.triage_complete("common".to_string(), 1, T0 + 3).unwrap();
    assert_eq!(
        done,
        TriageQueueComplete {
            queue_number: 1,
            queue_type: VisitType::COMMON,
            status: TicketStatus::Done,
            called_at: T0 + 2,
            done_at: T0 + 3,
        }
    );
    let cancelled = desk.cancel_patient_queue("common".to_string(), 2, T0 + 4).unwrap();
    assert_eq!(
        cancelled,
        TriagePatientCancel {
            queue_number: 2,
            queue_type: VisitType::COMMON,
            previous_status: TicketStatus::Waiting,
            new_status: TicketStatus::Cancelled,
        }
    );
    assert_eq!(desk.repo.tickets[1].status, TicketStatus::Cancelled);
    // Within the time to live the cancellation's answer is served again.
    assert_eq!(desk.cancel_patient_queue("common".to_string(), 2, T0 + 5).unwrap(), cancelled);
    match desk.cancel_patient_queue("common".to_string(), 1, T0 + 5) {
        Err(AppError::BadRequest(m)) => {
            assert_eq!(m, "Queue COMMON with number 1 is not currently being called")
        }
        other => panic!("unexpected {:?}", other),
    }
    match desk.cancel_patient_queue("common".to_string(), 3, T0 + 5) {
        Err(AppError::NotFound(m)) => assert_eq!(m, "Queue COMMON is not found with number 3"),
        other => panic!("unexpected {:?}", other),
    }
}

#[test]
fn service_status_is_cached_for_its_time_to_live() {
    let mut desk = TriageService::new();
    desk.perform_triage(request("1234567890123456", "Ani", VisitType::COMMON), T0).unwrap();
    let waiting = desk.get_triage_queue_status_by_id("common".to_string(), 1, T0).unwrap();
    assert_eq!(
        waiting,
        TriageQueueStatus {
            queue_number: 1,
            queue_type: VisitType::COMMON,
            status: TicketStatus::Waiting,
            created_at: T0,
        }
    );
    desk.repo.call_patient(1, VisitType::COMMON, T0 + 1).unwrap();
    // Stale within the time to live, fresh after it.
    let stale = desk.get_triage_queue_status_by_id("common".to_string(), 1, T0 + 299 * SECOND).unwrap();
    assert_eq!(stale.status, TicketStatus::Waiting);
    let fresh = desk.get_triage_queue_status_by_id("common".to_string(), 1, T0 + 300 * SECOND).unwrap();
    assert_eq!(fresh.status, TicketStatus::Called);
    assert!(matches!(
        desk.get_triage_queue_status_by_id("common".to_string(), 2, T0),
        Err(AppError::NotFound(_))
    ));
}

#[test]
fn service_queue_listing_expires_after_300_seconds() {
    let mut desk = TriageService::new();
    desk.perform_triage(request("0000000000000001", "A", VisitType::COMMON), T0).unwrap();
    let listing = desk.get_triage_queue("common".to_string(), T0).unwrap();
    assert_eq!(listing.visit_type, VisitType::COMMON);
    assert_eq!(listing.data.len(), 1);
    desk.perform_triage(request("0000000000000002", "B", VisitType::COMMON), T0 + 1).unwrap();
    let cached = desk.get_triage_queue("COMMON".to_string(), T0 + 300 * SECOND - 1).unwrap();
    assert_eq!(cached.data.len(), 1);
    let fresh = desk.get_triage_queue("common".to_string(), T0 + 300 * SECOND).unwrap();
    assert_eq!(fresh.data.len(), 2);
    assert_eq!(fresh.data[1].queue_number, 2);
    // The fresh listing was cached in turn.
    desk.perform_triage(request("0000000000000003", "C", VisitType::COMMON), T0 + 2).unwrap();
    let cached = desk.get_triage_queue("common".to_string(), T0 + 301 * SECOND).unwrap();
    assert_eq!(cached.data.len(), 2);
}

#[test]
fn unknown_queue_type_is_bad_request() {
    let mut desk = TriageService::new();
    match desk.call_patient("VIP".to_string(), 1, T0) {
        Err(AppError::BadRequest(m)) => assert_eq!(m, "Unknown visit type: vip"),
        other => panic!("unexpected {:?}", other),
    }
    assert!(matches!(desk.get_triage_queue("".to_string(), T0), Err(AppError::BadRequest(_))));
    assert!(matches!(
        desk.get_triage_queue_status_by_id("emergency".to_string(), 1, T0),
        Err(AppError::BadRequest(_))
    ));
    assert!(matches!(desk.triage_complete("x".to_string(), 1, T0), Err(AppError::BadRequest(_))));
    assert!(matches!(
        desk.cancel_patient_queue("bpjs ".to_string(), 1, T0),
        Err(AppError::BadRequest(_))
    ));
    assert!(matches!(desk.call_patient("BpJs".to_string(), 1, T0), Err(AppError::NotFound(_))));
}
