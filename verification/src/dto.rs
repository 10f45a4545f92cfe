use vstd::prelude::*;
use crate::model::{DocumentStatus, QueueTicket, TicketStatus, VisitType};

verus! {

/// What an intake answers: who was registered, which intent was recorded and
/// which ticket was issued. Times in the views below are microseconds since
/// the Unix epoch.
#[derive(Clone, Copy, Debug, PartialEq, Eq, Structural)]
pub struct CreateTriageResponse {
    pub patient_id: i32,
    pub visit_intent_id: i32,
    pub queue_number: i32,
    pub queue_type: VisitType,
    pub status: TicketStatus,
}

/// One line of a queue listing.
#[derive(Clone, Copy, Debug, PartialEq, Eq, Structural)]
pub struct TriageQueueItem {
    pub queue_number: i32,
    pub patient_id: i32,
    pub status: TicketStatus,
    pub created_at: i64,
}

/// The waiting tickets of one queue type in serving order.
#[derive(Debug)]
pub struct TriageQueueResponse {
    pub visit_type: VisitType,
    pub data: Vec<TriageQueueItem>,
}

/// Where one ticket stands.
#[derive(Clone, Copy, Debug, PartialEq, Eq, Structural)]
pub struct TriageQueueStatus {
    pub queue_number: i32,
    pub queue_type: VisitType,
    pub status: TicketStatus,
    pub created_at: i64,
}

/// The answer to calling a patient.
#[derive(Clone, Copy, Debug, PartialEq, Eq, Structural)]
pub struct TriagePatientCalled {
    pub queue_number: i32,
    pub queue_type: VisitType,
    pub called_at: i64,
}

/// The answer to completing triage.
#[derive(Clone, Copy, Debug, PartialEq, Eq, Structural)]
pub struct TriageQueueComplete {
    pub queue_number: i32,
    pub queue_type: VisitType,
    pub status: TicketStatus,
    pub called_at: i64,
    pub done_at: i64,
}

/// The answer to cancelling a ticket.
#[derive(Clone, Copy, Debug, PartialEq, Eq, Structural)]
pub struct TriagePatientCancel {
    pub queue_number: i32,
    pub queue_type: VisitType,
    pub previous_status: TicketStatus,
    pub new_status: TicketStatus,
}

/// The answer to storing a referral document.
#[derive(Clone, Copy, Debug, PartialEq, Eq, Structural)]
pub struct ReferralUploadResponse {
    pub status: DocumentStatus,
    pub created_at: i64,
}

/// An uploaded referral file: its extension in lower case, the name it came
/// under, and its bytes.
#[derive(Debug)]
pub struct ReferralUploadMetadata {
    pub extension: String,
    pub original_filename: String,
    pub file_bytes: Vec<u8>,
}

impl TriageQueueStatus {
    /// The status view of a ticket.
    pub open spec fn of(t: QueueTicket) -> TriageQueueStatus {
        TriageQueueStatus {
            queue_number: t.queue_number,
            queue_type: t.queue_type,
            status: t.status,
            created_at: t.created_at,
        }
    }
}

impl TriagePatientCalled {
    /// The view of a ticket whose patient was called.
    pub open spec fn of(t: QueueTicket) -> TriagePatientCalled
        recommends
            t.called_at is Some,
    {
        TriagePatientCalled {
            queue_number: t.queue_number,
            queue_type: t.queue_type,
            called_at: t.called_at->0,
        }
    }
}

impl TriageQueueComplete {
    /// The view of a ticket whose triage is complete.
    pub open spec fn of(t: QueueTicket) -> TriageQueueComplete
        recommends
            t.called_at is Some,
            t.done_at is Some,
    {
        TriageQueueComplete {
            queue_number: t.queue_number,
            queue_type: t.queue_type,
            status: t.status,
            called_at: t.called_at->0,
            done_at: t.done_at->0,
        }
    }
}

impl TriagePatientCancel {
    /// The view of a cancellation: the ticket as it is now, and the status it
    /// had before.
    pub open spec fn of(t: QueueTicket, previous: TicketStatus) -> TriagePatientCancel {
        TriagePatientCancel {
            queue_number: t.queue_number,
            queue_type: t.queue_type,
            previous_status: previous,
            new_status: t.status,
        }
    }
}

/// Copies a listing.
pub fn copy_items(items: &Vec<TriageQueueItem>) -> (copy: Vec<TriageQueueItem>)
    ensures
        copy@ == items@,
{
    let mut copy: Vec<TriageQueueItem> = Vec::new();
    let mut i: usize = 0;
    while i < items.len()
        invariant
            i <= items@.len(),
            copy@ == items@.take(i as int),
        decreases items@.len() - i,
    {
        copy.push(items[i]);
        assert(copy@ =~= items@.take(i + 1));
        i = i + 1;
    }
    assert(items@.take(i as int) =~= items@);
    copy
}

} // verus!
