use vstd::prelude::*;
use vstd::string::*;
use crate::dto::TriageQueueItem;
use crate::error::AppError;
use crate::model::{
    CreateTriageRequest, DocumentStatus, IntentStatus, Patient, QueueTicket, ReferralDocument,
    TicketStatus, VisitIntent, VisitType,
};
use crate::text::{decimal, int_text};

verus! {

/// How many of the tickets belong to a queue type, whatever their status.
pub open spec fn count_of_type(tickets: Seq<QueueTicket>, vt: VisitType) -> nat
    decreases tickets.len(),
{
    if tickets.len() == 0 {
        0
    } else {
        count_of_type(tickets.drop_last(), vt) + if tickets.last().queue_type == vt {
            1nat
        } else {
            0nat
        }
    }
}

/// Whether the ticket at a position is the one with the given number in the
/// given queue type.
pub open spec fn holds_ticket(tickets: Seq<QueueTicket>, i: int, vt: VisitType, n: i32) -> bool {
    0 <= i < tickets.len() && tickets[i].queue_type == vt && tickets[i].queue_number == n
}

/// Whether some ticket has the given number in the given queue type.
pub open spec fn has_ticket(tickets: Seq<QueueTicket>, vt: VisitType, n: i32) -> bool {
    exists|i: int| holds_ticket(tickets, i, vt, n)
}

/// Whether a patient with this national identity number is registered.
pub open spec fn registered(patients: Seq<Patient>, national_id: Seq<char>) -> bool {
    exists|i: int| 0 <= i < patients.len() && #[trigger] patients[i].national_id@ == national_id
}

/// Whether some ticket belongs to the visit intent.
pub open spec fn ticketed(tickets: Seq<QueueTicket>, intent_id: i32) -> bool {
    exists|i: int| 0 <= i < tickets.len() && #[trigger] tickets[i].visit_intent_id == intent_id
}

/// Whether identifiers are in order: each is at least 1 and greater than
/// the ones before it, so that none occurs twice; and there are no more of
/// them than fit their type.
pub open spec fn ids_in_order(ids: Seq<i32>) -> bool {
    &&& ids.len() <= i32::MAX
    &&& forall|i: int| 0 <= i < ids.len() ==> #[trigger] ids[i] >= 1
    &&& forall|i: int, j: int| 0 <= i < j < ids.len() ==> #[trigger] ids[i] < #[trigger] ids[j]
}

/// The identifier that the next row gets: one more than the last one, and 1
/// in an empty table.
pub open spec fn next_id(ids: Seq<i32>) -> int {
    if ids.len() == 0 {
        1
    } else {
        ids.last() + 1
    }
}

/// The identifiers of the patients, in the order of the rows.
pub open spec fn patient_ids(patients: Seq<Patient>) -> Seq<i32> {
    Seq::new(patients.len(), |i: int| patients[i].id)
}

/// The identifiers of the visit intents, in the order of the rows.
pub open spec fn intent_ids(intents: Seq<VisitIntent>) -> Seq<i32> {
    Seq::new(intents.len(), |i: int| intents[i].id)
}

/// The identifiers of the tickets, in the order of the rows.
pub open spec fn ticket_ids(tickets: Seq<QueueTicket>) -> Seq<i32> {
    Seq::new(tickets.len(), |i: int| tickets[i].id)
}

/// The identifiers of the referral documents, in the order of the rows.
pub open spec fn document_ids(documents: Seq<ReferralDocument>) -> Seq<i32> {
    Seq::new(documents.len(), |i: int| documents[i].id)
}

/// Whether some patient has the identifier.
pub open spec fn has_patient(patients: Seq<Patient>, id: i32) -> bool {
    patient_ids(patients).contains(id)
}

/// Whether some visit intent has the identifier.
pub open spec fn has_intent(intents: Seq<VisitIntent>, id: i32) -> bool {
    intent_ids(intents).contains(id)
}

/// The position of the patient with the identifier.
pub open spec fn patient_slot(patients: Seq<Patient>, id: i32) -> int {
    patient_ids(patients).index_of(id)
}

/// The position of the visit intent with the identifier.
pub open spec fn intent_slot(intents: Seq<VisitIntent>, id: i32) -> int {
    intent_ids(intents).index_of(id)
}

/// The position of the ticket with the identifier.
pub open spec fn ticket_slot(tickets: Seq<QueueTicket>, id: i32) -> int {
    ticket_ids(tickets).index_of(id)
}

/// Among identifiers in order, an identifier is found where it stands.
pub proof fn id_is_at(ids: Seq<i32>, i: int)
    requires
        ids_in_order(ids),
        0 <= i < ids.len(),
    ensures
        ids.contains(ids[i]),
        ids.index_of(ids[i]) == i,
{
    let j = ids.index_of(ids[i]);
    assert(0 <= j < ids.len() && ids[j] == ids[i]);
    if j < i {
        assert(ids[j] < ids[i]);
    } else if i < j {
        assert(ids[i] < ids[j]);
    }
}

/// Among identifiers in order, an identifier that occurs has a position.
pub proof fn id_has_slot(ids: Seq<i32>, id: i32)
    requires
        ids.contains(id),
    ensures
        0 <= ids.index_of(id) < ids.len(),
        ids[ids.index_of(id)] == id,
{
}

/// Identifiers in order are no smaller than their position counted from 1.
pub proof fn id_outgrows_position(ids: Seq<i32>, i: int)
    requires
        ids_in_order(ids),
        0 <= i < ids.len(),
    ensures
        ids[i] >= i + 1,
    decreases i,
{
    if i > 0 {
        id_outgrows_position(ids, i - 1);
        assert(ids[i - 1] < ids[i]);
    }
}

/// Identifiers stay in order when the next identifier is added to them.
pub proof fn next_id_keeps_order(ids: Seq<i32>, id: i32)
    requires
        ids_in_order(ids),
        id == next_id(ids),
    ensures
        ids_in_order(ids.push(id)),
        !ids.contains(id),
        forall|other: i32| ids.contains(other) ==> #[trigger] ids.push(id).contains(other),
        ids.push(id).contains(id),
{
    let grown = ids.push(id);
    if ids.len() > 0 {
        id_outgrows_position(ids, ids.len() - 1);
    }
    assert forall|i: int, j: int| 0 <= i < j < grown.len() implies #[trigger] grown[i]
        < #[trigger] grown[j] by {
        if j == ids.len() {
            assert(grown[i] == ids[i]);
            if i < ids.len() - 1 {
                assert(ids[i] < ids[ids.len() - 1]);
            }
        } else {
            assert(ids[i] < ids[j]);
        }
    }
    assert forall|i: int| 0 <= i < grown.len() implies #[trigger] grown[i] >= 1 by {
        if i < ids.len() {
            assert(ids[i] >= 1);
        }
    }
    if ids.contains(id) {
        let k = ids.index_of(id);
        if k < ids.len() - 1 {
            assert(ids[k] < ids[ids.len() - 1]);
        }
    }
    assert forall|other: i32| ids.contains(other) implies #[trigger] grown.contains(other) by {
        let k = ids.index_of(other);
        assert(grown[k] == other);
    }
    assert(grown[ids.len() as int] == id);
}

/// The ticket issued for a visit intent in a queue type, after the given
/// tickets, at the given time: it waits, and its number is one more than the
/// count of the tickets of its type.
pub open spec fn issued(
    tickets: Seq<QueueTicket>,
    intent_id: i32,
    vt: VisitType,
    now: i64,
) -> QueueTicket {
    QueueTicket {
        id: next_id(ticket_ids(tickets)) as i32,
        visit_intent_id: intent_id,
        queue_number: (count_of_type(tickets, vt) + 1) as i32,
        queue_type: vt,
        status: TicketStatus::Waiting,
        called_at: None,
        done_at: None,
        created_at: now,
    }
}

/// The visit intent recorded for a patient after the given intents.
pub open spec fn recorded(
    intents: Seq<VisitIntent>,
    patient_id: i32,
    vt: VisitType,
    now: i64,
) -> VisitIntent {
    VisitIntent {
        id: next_id(intent_ids(intents)) as i32,
        patient_id,
        visit_type: vt,
        referral_document_id: None,
        status: IntentStatus::Waiting,
        created_at: now,
        updated_at: now,
    }
}

/// `Queue <type> with number <n>` followed by a tail.
pub open spec fn queue_message(vt: VisitType, n: i32, tail: Seq<char>) -> Seq<char> {
    "Queue "@ + vt.name() + " with number "@ + decimal(n as int) + tail
}

/// `Queue <type> is not found with number <n>`.
pub open spec fn lookup_message(vt: VisitType, n: i32) -> Seq<char> {
    "Queue "@ + vt.name() + " is not found with number "@ + decimal(n as int)
}

fn queue_message_text(vt: VisitType, n: i32, tail: &str) -> (m: String)
    ensures
        m@ == queue_message(vt, n, tail@),
{
    let mut m = String::from_str("Queue ");
    m.append(vt.to_string().as_str());
    m.append(" with number ");
    m.append(int_text(n as i64).as_str());
    m.append(tail);
    m
}

fn lookup_message_text(vt: VisitType, n: i32) -> (m: String)
    ensures
        m@ == lookup_message(vt, n),
{
    let mut m = String::from_str("Queue ");
    m.append(vt.to_string().as_str());
    m.append(" is not found with number ");
    m.append(int_text(n as i64).as_str());
    m
}

/// Counting the tickets of a type over a longer prefix counts no fewer.
pub proof fn count_grows(tickets: Seq<QueueTicket>, vt: VisitType, i: int, j: int)
    requires
        0 <= i <= j <= tickets.len(),
    ensures
        count_of_type(tickets.take(i), vt) <= count_of_type(tickets.take(j), vt),
        count_of_type(tickets.take(j), vt) <= j,
    decreases j,
{
    if j == 0 {
        assert(tickets.take(0).len() == 0);
    } else {
        assert(tickets.take(j).drop_last() =~= tickets.take(j - 1));
        if i < j {
            count_grows(tickets, vt, i, j - 1);
        } else {
            count_grows(tickets, vt, j - 1, j - 1);
        }
    }
}

/// The count of the tickets of a type does not depend on anything but the
/// tickets' types.
pub proof fn count_reads_types_only(a: Seq<QueueTicket>, b: Seq<QueueTicket>, vt: VisitType, k: int)
    requires
        a.len() == b.len(),
        0 <= k <= a.len(),
        forall|i: int| 0 <= i < a.len() ==> a[i].queue_type == b[i].queue_type,
    ensures
        count_of_type(a.take(k), vt) == count_of_type(b.take(k), vt),
    decreases k,
{
    if k == 0 {
        assert(a.take(0).len() == 0);
        assert(b.take(0).len() == 0);
    } else {
        assert(a.take(k).drop_last() =~= a.take(k - 1));
        assert(b.take(k).drop_last() =~= b.take(k - 1));
        count_reads_types_only(a, b, vt, k - 1);
    }
}

/// The system of record of the triage desk: patients, visit intents, queue
/// tickets and referral documents, each in the order of creation.
pub struct TriageRepo {
    pub patients: Vec<Patient>,
    pub intents: Vec<VisitIntent>,
    pub tickets: Vec<QueueTicket>,
    pub documents: Vec<ReferralDocument>,
}

impl TriageRepo {
    /// The consistency that every operation keeps.
    ///
    /// In each table the identifiers are in order, so none occurs twice. No
    /// two patients share a national identity number. Every intent belongs
    /// to a patient, every ticket to an intent, and no intent has two
    /// tickets. The number of a ticket is one more than the count of the
    /// earlier tickets of its queue type. A called or finished ticket has its
    /// times.
    pub open spec fn wf(&self) -> bool {
        &&& ids_in_order(patient_ids(self.patients@))
        &&& ids_in_order(intent_ids(self.intents@))
        &&& ids_in_order(ticket_ids(self.tickets@))
        &&& ids_in_order(document_ids(self.documents@))
        &&& forall|i: int, j: int|
            0 <= i < j < self.patients@.len() ==> (#[trigger] self.patients@[i]).national_id@ != (
            #[trigger] self.patients@[j]).national_id@
        &&& forall|i: int|
            0 <= i < self.intents@.len() ==> has_patient(
                self.patients@,
                (#[trigger] self.intents@[i]).patient_id,
            )
        &&& forall|i: int|
            0 <= i < self.tickets@.len() ==> {
                &&& has_intent(self.intents@, (#[trigger] self.tickets@[i]).visit_intent_id)
                &&& self.tickets@[i].queue_number == count_of_type(
                    self.tickets@.take(i),
                    self.tickets@[i].queue_type,
                ) + 1
                &&& self.tickets@[i].times_recorded()
            }
        &&& forall|i: int, j: int|
            0 <= i < j < self.tickets@.len() ==> (#[trigger] self.tickets@[i]).visit_intent_id != (
            #[trigger] self.tickets@[j]).visit_intent_id
    }

    /// How registering a patient relates the store before and after to what
    /// is returned.
    ///
    /// A patient already registered under the national identity number is
    /// returned as stored and nothing is written. Otherwise the patient that
    /// the request describes is appended under the next identifier, unless
    /// none is left, which is an internal error.
    pub open spec fn registers(
        &self,
        post: &TriageRepo,
        payload: &CreateTriageRequest,
        now: i64,
        found: Result<Patient, AppError>,
    ) -> bool {
        match found {
            Ok(p) => if registered(self.patients@, payload.national_id@) {
                &&& post.patients@ == self.patients@
                &&& has_patient(self.patients@, p.id)
                &&& p == self.patients@[patient_slot(self.patients@, p.id)]
                &&& p.national_id@ == payload.national_id@
            } else {
                &&& post.patients@ == self.patients@.push(p)
                &&& p.describes(next_id(patient_ids(self.patients@)), payload, now)
            },
            Err(AppError::Internal(_)) => {
                &&& !registered(self.patients@, payload.national_id@)
                &&& next_id(patient_ids(self.patients@)) > i32::MAX
                &&& post.patients@ == self.patients@
            },
            Err(_) => false,
        }
    }

    /// How a lookup by number within a queue type relates the store to what
    /// is returned: the ticket with that number, or NotFound when there is
    /// none.
    pub open spec fn looks_up(
        &self,
        n: i32,
        vt: VisitType,
        found: Result<QueueTicket, AppError>,
    ) -> bool {
        match found {
            Ok(t) => {
                &&& holds_ticket(self.tickets@, ticket_slot(self.tickets@, t.id), vt, n)
                &&& t == self.tickets@[ticket_slot(self.tickets@, t.id)]
            },
            Err(AppError::NotFound(m)) => {
                &&& !has_ticket(self.tickets@, vt, n)
                &&& m@ == lookup_message(vt, n)
            },
            Err(_) => false,
        }
    }

    /// How calling a patient relates the store before and after to what is
    /// returned.
    ///
    /// It succeeds exactly on a ticket that waits: the ticket becomes CALLED
    /// with the time of the call and its visit intent follows. Otherwise it
    /// is NotFound and nothing is written.
    pub open spec fn calls(
        &self,
        post: &TriageRepo,
        n: i32,
        vt: VisitType,
        now: i64,
        called: Result<QueueTicket, AppError>,
    ) -> bool {
        match called {
            Ok(t) => {
                &&& holds_ticket(self.tickets@, ticket_slot(self.tickets@, t.id), vt, n)
                &&& self.tickets@[ticket_slot(self.tickets@, t.id)].status.can_be_called()
                &&& t == self.tickets@[ticket_slot(self.tickets@, t.id)].called(now)
                &&& post.tickets@ == self.tickets@.update(ticket_slot(self.tickets@, t.id), t)
                &&& post.intents@ == self.intents@.update(
                    intent_slot(self.intents@, t.visit_intent_id),
                    self.intents@[intent_slot(self.intents@, t.visit_intent_id)].with_status(IntentStatus::Called, now),
                )
            },
            Err(AppError::NotFound(m)) => {
                &&& forall|i: int|
                    holds_ticket(self.tickets@, i, vt, n) ==> !self.tickets@[i].status.can_be_called()
                &&& post.tickets@ == self.tickets@
                &&& post.intents@ == self.intents@
                &&& m@ == queue_message(vt, n, " is not found or has been called"@)
            },
            Err(_) => false,
        }
    }

    /// How completing triage relates the store before and after to what is
    /// returned.
    ///
    /// It succeeds exactly on a ticket that is being called: the ticket
    /// becomes DONE with the time it was done and its visit intent follows.
    /// On a ticket in another status it is a BadRequest, without a ticket
    /// NotFound, and nothing is written.
    pub open spec fn completes(
        &self,
        post: &TriageRepo,
        n: i32,
        vt: VisitType,
        now: i64,
        completed: Result<QueueTicket, AppError>,
    ) -> bool {
        match completed {
            Ok(t) => {
                &&& holds_ticket(self.tickets@, ticket_slot(self.tickets@, t.id), vt, n)
                &&& self.tickets@[ticket_slot(self.tickets@, t.id)].status.can_complete()
                &&& t == self.tickets@[ticket_slot(self.tickets@, t.id)].completed(now)
                &&& post.tickets@ == self.tickets@.update(ticket_slot(self.tickets@, t.id), t)
                &&& post.intents@ == self.intents@.update(
                    intent_slot(self.intents@, t.visit_intent_id),
                    self.intents@[intent_slot(self.intents@, t.visit_intent_id)].with_status(IntentStatus::Done, now),
                )
            },
            Err(AppError::BadRequest(m)) => {
                &&& has_ticket(self.tickets@, vt, n)
                &&& forall|i: int|
                    holds_ticket(self.tickets@, i, vt, n) ==> !self.tickets@[i].status.can_complete()
                &&& post.tickets@ == self.tickets@
                &&& post.intents@ == self.intents@
                &&& m@ == queue_message(vt, n, " is not currently being called"@)
            },
            Err(AppError::NotFound(m)) => {
                &&& !has_ticket(self.tickets@, vt, n)
                &&& post.tickets@ == self.tickets@
                &&& post.intents@ == self.intents@
                &&& m@ == queue_message(vt, n, " is not found"@)
            },
            Err(_) => false,
        }
    }

    /// How cancelling a ticket relates the store before and after to what is
    /// returned.
    ///
    /// It succeeds exactly on a ticket that was not called and is not done:
    /// the ticket becomes CANCELLED. On a called or finished ticket it is a
    /// BadRequest, without a ticket NotFound, and nothing is written. The
    /// visit intents never change.
    pub open spec fn cancels(
        &self,
        post: &TriageRepo,
        n: i32,
        vt: VisitType,
        cancelled: Result<QueueTicket, AppError>,
    ) -> bool {
        &&& post.intents@ == self.intents@
        &&& match cancelled {
            Ok(t) => {
                &&& holds_ticket(self.tickets@, ticket_slot(self.tickets@, t.id), vt, n)
                &&& self.tickets@[ticket_slot(self.tickets@, t.id)].status.can_be_cancelled()
                &&& t == self.tickets@[ticket_slot(self.tickets@, t.id)].cancelled()
                &&& post.tickets@ == self.tickets@.update(ticket_slot(self.tickets@, t.id), t)
            },
            Err(AppError::BadRequest(m)) => {
                &&& has_ticket(self.tickets@, vt, n)
                &&& forall|i: int|
                    holds_ticket(self.tickets@, i, vt, n)
                        ==> !self.tickets@[i].status.can_be_cancelled()
                &&& post.tickets@ == self.tickets@
                &&& m@ == queue_message(vt, n, " is not currently being called"@)
            },
            Err(AppError::NotFound(m)) => {
                &&& !has_ticket(self.tickets@, vt, n)
                &&& post.tickets@ == self.tickets@
                &&& m@ == queue_message(vt, n, " is not found"@)
            },
            Err(_) => false,
        }
    }

    /// An empty store.
    pub fn new() -> (repo: TriageRepo)
        ensures
            repo.wf(),
            repo.patients@.len() == 0,
            repo.intents@.len() == 0,
            repo.tickets@.len() == 0,
            repo.documents@.len() == 0,
    {
        TriageRepo {
            patients: Vec::new(),
            intents: Vec::new(),
            tickets: Vec::new(),
            documents: Vec::new(),
        }
    }

    /// Within a queue type a later ticket has a greater number, so a number
    /// names at most one ticket of a type.
    pub proof fn numbers_increase(&self, i: int, j: int)
        requires
            self.wf(),
            0 <= i < j < self.tickets@.len(),
            self.tickets@[i].queue_type == self.tickets@[j].queue_type,
        ensures
            self.tickets@[i].queue_number < self.tickets@[j].queue_number,
    {
        let vt = self.tickets@[i].queue_type;
        assert(self.tickets@.take(i + 1).drop_last() =~= self.tickets@.take(i));
        count_grows(self.tickets@, vt, i + 1, j);
    }

    /// The identifier that the next patient gets, if one is left.
    pub fn next_patient_id(&self) -> (next: Option<i32>)
        ensures
            match next {
                Some(id) => id == next_id(patient_ids(self.patients@)),
                None => next_id(patient_ids(self.patients@)) > i32::MAX,
            },
    {
        let n = self.patients.len();
        if n == 0 {
            Some(1)
        } else {
            let last = self.patients[n - 1].id;
            assert(patient_ids(self.patients@).last() == last);
            if last == i32::MAX {
                None
            } else {
                Some(last + 1)
            }
        }
    }

    /// The identifier that the next visit intent gets, if one is left.
    pub fn next_intent_id(&self) -> (next: Option<i32>)
        ensures
            match next {
                Some(id) => id == next_id(intent_ids(self.intents@)),
                None => next_id(intent_ids(self.intents@)) > i32::MAX,
            },
    {
        let n = self.intents.len();
        if n == 0 {
            Some(1)
        } else {
            let last = self.intents[n - 1].id;
            assert(intent_ids(self.intents@).last() == last);
            if last == i32::MAX {
                None
            } else {
                Some(last + 1)
            }
        }
    }

    /// The identifier that the next ticket gets, if one is left.
    pub fn next_ticket_id(&self) -> (next: Option<i32>)
        ensures
            match next {
                Some(id) => id == next_id(ticket_ids(self.tickets@)),
                None => next_id(ticket_ids(self.tickets@)) > i32::MAX,
            },
    {
        let n = self.tickets.len();
        if n == 0 {
            Some(1)
        } else {
            let last = self.tickets[n - 1].id;
            assert(ticket_ids(self.tickets@).last() == last);
            if last == i32::MAX {
                None
            } else {
                Some(last + 1)
            }
        }
    }

    /// The identifier that the next referral document gets, if one is left.
    pub fn next_document_id(&self) -> (next: Option<i32>)
        ensures
            match next {
                Some(id) => id == next_id(document_ids(self.documents@)),
                None => next_id(document_ids(self.documents@)) > i32::MAX,
            },
    {
        let n = self.documents.len();
        if n == 0 {
            Some(1)
        } else {
            let last = self.documents[n - 1].id;
            assert(document_ids(self.documents@).last() == last);
            if last == i32::MAX {
                None
            } else {
                Some(last + 1)
            }
        }
    }

    fn find_patient(&self, id: i32) -> (found: Option<usize>)
        ensures
            match found {
                Some(k) => k < self.patients@.len() && self.patients@[k as int].id == id
                    && has_patient(self.patients@, id),
                None => !has_patient(self.patients@, id),
            },
    {
        let mut i: usize = 0;
        while i < self.patients.len()
            invariant
                i <= self.patients@.len(),
                forall|k: int| 0 <= k < i ==> patient_ids(self.patients@)[k] != id,
            decreases self.patients@.len() - i,
        {
            if self.patients[i].id == id {
                assert(patient_ids(self.patients@)[i as int] == id);
                return Some(i);
            }
            i = i + 1;
        }
        None
    }

    fn find_intent(&self, id: i32) -> (found: Option<usize>)
        ensures
            match found {
                Some(k) => k < self.intents@.len() && self.intents@[k as int].id == id
                    && has_intent(self.intents@, id),
                None => !has_intent(self.intents@, id),
            },
    {
        let mut i: usize = 0;
        while i < self.intents.len()
            invariant
                i <= self.intents@.len(),
                forall|k: int| 0 <= k < i ==> intent_ids(self.intents@)[k] != id,
            decreases self.intents@.len() - i,
        {
            if self.intents[i].id == id {
                assert(intent_ids(self.intents@)[i as int] == id);
                return Some(i);
            }
            i = i + 1;
        }
        None
    }

    /// Finds the patient with the request's national identity number, or
    /// registers the patient that the request describes.
    ///
    /// A patient already registered is returned as stored, and nothing is
    /// written: the request's other fields are not used. Otherwise the new
    /// patient is appended under the next identifier. Registration fails only
    /// when no identifier is left.
    pub fn find_or_create_patient(&mut self, payload: &CreateTriageRequest, now: i64) -> (found:
        Result<Patient, AppError>)
        requires
            old(self).wf(),
        ensures
            final(self).wf(),
            final(self).intents@ == old(self).intents@,
            final(self).tickets@ == old(self).tickets@,
            final(self).documents@ == old(self).documents@,
            old(self).registers(final(self), payload, now, found),
    {
        let mut i: usize = 0;
        while i < self.patients.len()
            invariant
                i <= self.patients@.len(),
                *self == *old(self),
                self.wf(),
                forall|k: int| 0 <= k < i ==> self.patients@[k].national_id@ != payload.national_id@,
            decreases self.patients@.len() - i,
        {
            if self.patients[i].national_id == payload.national_id {
                let p = self.patients[i].duplicate();
                proof {
                    self.patient_is_at(i as int);
                }
                return Ok(p);
            }
            i = i + 1;
        }
        let id = match self.next_patient_id() {
            Some(id) => id,
            None => {
                return Err(
                    AppError::Internal(String::from_str("Store error: no patient id is left")),
                );
            },
        };
        let p = Patient::from_request(id, payload, now);
        let copy = p.duplicate();
        proof {
            next_id_keeps_order(patient_ids(self.patients@), id);
        }
        self.patients.push(p);
        proof {
            assert(patient_ids(self.patients@) =~= patient_ids(old(self).patients@).push(id));
            assert forall|k: int| 0 <= k < self.intents@.len() implies has_patient(
                self.patients@,
                (#[trigger] self.intents@[k]).patient_id,
            ) by {
                assert(has_patient(old(self).patients@, old(self).intents@[k].patient_id));
            }
        }
        Ok(copy)
    }

    /// Records a visit intent for a patient: it waits from the start and has
    /// no referral document yet.
    ///
    /// Fails, writing nothing, when the patient does not exist or no
    /// identifier is left.
    pub fn create_visit_intent(
        &mut self,
        patient_id: i32,
        payload: &CreateTriageRequest,
        now: i64,
    ) -> (created: Result<VisitIntent, AppError>)
        requires
            old(self).wf(),
        ensures
            final(self).wf(),
            final(self).patients@ == old(self).patients@,
            final(self).tickets@ == old(self).tickets@,
            final(self).documents@ == old(self).documents@,
            created is Ok <==> has_patient(old(self).patients@, patient_id) && next_id(
                intent_ids(old(self).intents@),
            ) <= i32::MAX,
            match created {
                Ok(v) => {
                    &&& v == recorded(old(self).intents@, patient_id, payload.visit_type, now)
                    &&& final(self).intents@ == old(self).intents@.push(v)
                },
                Err(AppError::Internal(_)) => final(self).intents@ == old(self).intents@,
                Err(_) => false,
            },
    {
        if self.find_patient(patient_id).is_none() {
            return Err(AppError::Internal(String::from_str("Store error: patient does not exist")));
        }
        let id = match self.next_intent_id() {
            Some(id) => id,
            None => {
                return Err(
                    AppError::Internal(String::from_str("Store error: no visit intent id is left")),
                );
            },
        };
        let v = VisitIntent {
            id,
            patient_id,
            visit_type: payload.visit_type,
            referral_document_id: None,
            status: IntentStatus::Waiting,
            created_at: now,
            updated_at: now,
        };
        proof {
            next_id_keeps_order(intent_ids(self.intents@), id);
        }
        self.intents.push(v);
        proof {
            assert(intent_ids(self.intents@) =~= intent_ids(old(self).intents@).push(id));
            assert forall|k: int| 0 <= k < self.tickets@.len() implies has_intent(
                self.intents@,
                (#[trigger] self.tickets@[k]).visit_intent_id,
            ) by {
                assert(has_intent(old(self).intents@, old(self).tickets@[k].visit_intent_id));
            }
        }
        Ok(v)
    }

    fn count_tickets(&self, vt: VisitType) -> (count: usize)
        ensures
            count == count_of_type(self.tickets@, vt),
            count <= self.tickets@.len(),
    {
        let mut count: usize = 0;
        let mut i: usize = 0;
        while i < self.tickets.len()
            invariant
                i <= self.tickets@.len(),
                count <= i,
                count == count_of_type(self.tickets@.take(i as int), vt),
            decreases self.tickets@.len() - i,
        {
            assert(self.tickets@.take(i + 1).drop_last() =~= self.tickets@.take(i as int));
            if self.tickets[i].queue_type == vt {
                count = count + 1;
            }
            i = i + 1;
        }
        assert(self.tickets@.take(i as int) =~= self.tickets@);
        count
    }

    fn intent_has_ticket(&self, intent_id: i32) -> (has: bool)
        ensures
            has == ticketed(self.tickets@, intent_id),
    {
        let mut i: usize = 0;
        while i < self.tickets.len()
            invariant
                i <= self.tickets@.len(),
                forall|k: int| 0 <= k < i ==> self.tickets@[k].visit_intent_id != intent_id,
            decreases self.tickets@.len() - i,
        {
            if self.tickets[i].visit_intent_id == intent_id {
                return true;
            }
            i = i + 1;
        }
        false
    }

    /// Issues the ticket of a visit intent in a queue type. Its number is one
    /// more than the count of all tickets of that type, whatever their status,
    /// and it waits.
    ///
    /// Fails, writing nothing, when the intent does not exist, when it has a
    /// ticket already, or when no identifier is left.
    pub fn create_queue_ticket(&mut self, intent_id: i32, visit_type: VisitType, now: i64) -> (created:
        Result<QueueTicket, AppError>)
        requires
            old(self).wf(),
        ensures
            final(self).wf(),
            final(self).patients@ == old(self).patients@,
            final(self).intents@ == old(self).intents@,
            final(self).documents@ == old(self).documents@,
            created is Ok <==> {
                &&& has_intent(old(self).intents@, intent_id)
                &&& !ticketed(old(self).tickets@, intent_id)
                &&& next_id(ticket_ids(old(self).tickets@)) <= i32::MAX
            },
            match created {
                Ok(t) => {
                    &&& t == issued(old(self).tickets@, intent_id, visit_type, now)
                    &&& final(self).tickets@ == old(self).tickets@.push(t)
                },
                Err(AppError::Internal(_)) => final(self).tickets@ == old(self).tickets@,
                Err(_) => false,
            },
    {
        if self.find_intent(intent_id).is_none() {
            return Err(
                AppError::Internal(String::from_str("Store error: visit intent does not exist")),
            );
        }
        if self.intent_has_ticket(intent_id) {
            return Err(
                AppError::Internal(
                    String::from_str("Store error: visit intent already has a ticket"),
                ),
            );
        }
        let id = match self.next_ticket_id() {
            Some(id) => id,
            None => {
                return Err(AppError::Internal(String::from_str("Store error: no ticket id is left")));
            },
        };
        proof {
            next_id_keeps_order(ticket_ids(self.tickets@), id);
            assert(ticket_ids(self.tickets@).push(id).len() == self.tickets@.len() + 1);
        }
        let count = self.count_tickets(visit_type);
        let t = QueueTicket {
            id,
            visit_intent_id: intent_id,
            queue_number: (count + 1) as i32,
            queue_type: visit_type,
            status: TicketStatus::Waiting,
            called_at: None,
            done_at: None,
            created_at: now,
        };
        self.tickets.push(t);
        proof {
            let before = old(self).tickets@;
            let after = self.tickets@;
            assert(ticket_ids(after) =~= ticket_ids(before).push(id));
            assert(after.take(before.len() as int) =~= before);
            assert forall|i: int| 0 <= i < before.len() implies after.take(i) == before.take(i) by {
                assert(after.take(i) =~= before.take(i));
            }
        }
        Ok(t)
    }

    fn find_index(&self, queue_number: i32, visit_type: VisitType) -> (found: Option<usize>)
        ensures
            match found {
                Some(i) => holds_ticket(self.tickets@, i as int, visit_type, queue_number),
                None => !has_ticket(self.tickets@, visit_type, queue_number),
            },
    {
        let mut i: usize = 0;
        while i < self.tickets.len()
            invariant
                i <= self.tickets@.len(),
                forall|k: int| 0 <= k < i ==> !holds_ticket(self.tickets@, k, visit_type, queue_number),
            decreases self.tickets@.len() - i,
        {
            if self.tickets[i].queue_type == visit_type && self.tickets[i].queue_number
                == queue_number {
                return Some(i);
            }
            i = i + 1;
        }
        None
    }

    /// A ticket is found, by its identifier, where it stands.
    pub proof fn ticket_is_at(&self, i: int)
        requires
            self.wf(),
            0 <= i < self.tickets@.len(),
        ensures
            ticket_slot(self.tickets@, self.tickets@[i].id) == i,
    {
        assert(ticket_ids(self.tickets@)[i] == self.tickets@[i].id);
        id_is_at(ticket_ids(self.tickets@), i);
    }

    /// A visit intent is found, by its identifier, where it stands.
    pub proof fn intent_is_at(&self, i: int)
        requires
            self.wf(),
            0 <= i < self.intents@.len(),
        ensures
            intent_slot(self.intents@, self.intents@[i].id) == i,
            has_intent(self.intents@, self.intents@[i].id),
    {
        assert(intent_ids(self.intents@)[i] == self.intents@[i].id);
        id_is_at(intent_ids(self.intents@), i);
    }

    /// A patient is found, by their identifier, where they stand.
    pub proof fn patient_is_at(&self, i: int)
        requires
            self.wf(),
            0 <= i < self.patients@.len(),
        ensures
            patient_slot(self.patients@, self.patients@[i].id) == i,
            has_patient(self.patients@, self.patients@[i].id),
    {
        assert(patient_ids(self.patients@)[i] == self.patients@[i].id);
        id_is_at(patient_ids(self.patients@), i);
    }

    /// Looks a ticket up by its number within a queue type.
    pub fn get_status_by_queue_number(&self, queue_number: i32, visit_type: VisitType) -> (found:
        Result<QueueTicket, AppError>)
        requires
            self.wf(),
        ensures
            self.looks_up(queue_number, visit_type, found),
    {
        match self.find_index(queue_number, visit_type) {
            Some(i) => {
                proof {
                    self.ticket_is_at(i as int);
                }
                Ok(self.tickets[i])
            },
            None => Err(AppError::NotFound(lookup_message_text(visit_type, queue_number))),
        }
    }

    /// Sets the status of a visit intent and touches it.
    ///
    /// Fails with NotFound, writing nothing, when the intent does not exist.
    pub fn update_visit_intent_status(&mut self, visit_intent_id: i32, status: IntentStatus, now: i64) -> (
        updated: Result<(), AppError>)
        requires
            old(self).wf(),
        ensures
            final(self).wf(),
            final(self).patients@ == old(self).patients@,
            final(self).tickets@ == old(self).tickets@,
            final(self).documents@ == old(self).documents@,
            match updated {
                Ok(_) => {
                    &&& has_intent(old(self).intents@, visit_intent_id)
                    &&& final(self).intents@ == old(self).intents@.update(
                        intent_slot(old(self).intents@, visit_intent_id),
                        old(self).intents@[intent_slot(
                            old(self).intents@,
                            visit_intent_id,
                        )].with_status(status, now),
                    )
                },
                Err(AppError::NotFound(m)) => {
                    &&& !has_intent(old(self).intents@, visit_intent_id)
                    &&& final(self).intents@ == old(self).intents@
                    &&& m@ == "Visit intent not found"@
                },
                Err(_) => false,
            },
    {
        let at = match self.find_intent(visit_intent_id) {
            Some(at) => at,
            None => {
                return Err(AppError::NotFound(String::from_str("Visit intent not found")));
            },
        };
        proof {
            self.intent_is_at(at as int);
        }
        let v = self.intents[at];
        self.intents[at] = VisitIntent { status, updated_at: now, ..v };
        proof {
            assert(intent_ids(self.intents@) =~= intent_ids(old(self).intents@));
        }
        Ok(())
    }

    /// A number names at most one ticket of a queue type.
    pub proof fn holder_is_unique(&self, i: int, j: int, vt: VisitType, n: i32)
        requires
            self.wf(),
            holds_ticket(self.tickets@, i, vt, n),
            holds_ticket(self.tickets@, j, vt, n),
        ensures
            i == j,
    {
        if i < j {
            self.numbers_increase(i, j);
        } else if j < i {
            self.numbers_increase(j, i);
        }
    }

    fn replace_ticket(&mut self, at: usize, t: QueueTicket)
        requires
            old(self).wf(),
            at < old(self).tickets@.len(),
            t.id == old(self).tickets@[at as int].id,
            t.visit_intent_id == old(self).tickets@[at as int].visit_intent_id,
            t.queue_number == old(self).tickets@[at as int].queue_number,
            t.queue_type == old(self).tickets@[at as int].queue_type,
            t.times_recorded(),
        ensures
            final(self).wf(),
            final(self).tickets@ == old(self).tickets@.update(at as int, t),
            final(self).patients@ == old(self).patients@,
            final(self).intents@ == old(self).intents@,
            final(self).documents@ == old(self).documents@,
    {
        self.tickets[at] = t;
        proof {
            let before = old(self).tickets@;
            let after = self.tickets@;
            assert(ticket_ids(after) =~= ticket_ids(before));
            assert forall|i: int| 0 <= i < after.len() implies after[i].queue_number
                == count_of_type(after.take(i), after[i].queue_type) + 1 by {
                count_reads_types_only(before, after, after[i].queue_type, i);
            }
        }
    }

    /// Calls the patient who waits under the given number in the given queue
    /// type: the ticket becomes CALLED with the time of the call, and its
    /// visit intent follows.
    ///
    /// Fails with NotFound, writing nothing, when no ticket has that number in
    /// that type or the ticket does not wait.
    pub fn call_patient(&mut self, queue_number: i32, visit_type: VisitType, now: i64) -> (called:
        Result<QueueTicket, AppError>)
        requires
            old(self).wf(),
        ensures
            final(self).wf(),
            final(self).patients@ == old(self).patients@,
            final(self).documents@ == old(self).documents@,
            old(self).calls(final(self), queue_number, visit_type, now, called),
    {
        let found = self.find_index(queue_number, visit_type);
        match found {
            Some(at) => {
                proof {
                    self.ticket_is_at(at as int);
                }
                let current = self.tickets[at];
                if current.status == TicketStatus::Waiting {
                    let t = QueueTicket {
                        status: TicketStatus::Called,
                        called_at: Some(now),
                        ..current
                    };
                    self.replace_ticket(at, t);
                    match self.update_visit_intent_status(
                        t.visit_intent_id,
                        IntentStatus::Called,
                        now,
                    ) {
                        Ok(_) => Ok(t),
                        Err(e) => Err(e),
                    }
                } else {
                    proof {
                        assert forall|i: int|
                            holds_ticket(self.tickets@, i, visit_type, queue_number) implies i
                            == at by {
                            self.holder_is_unique(i, at as int, visit_type, queue_number);
                        }
                    }
                    Err(
                        AppError::NotFound(
                            queue_message_text(
                                visit_type,
                                queue_number,
                                " is not found or has been called",
                            ),
                        ),
                    )
                }
            },
            None => Err(
                AppError::NotFound(
                    queue_message_text(
                        visit_type,
                        queue_number,
                        " is not found or has been called",
                    ),
                ),
            ),
        }
    }

    /// Completes triage for the ticket with the given number in the given
    /// queue type: the ticket becomes DONE with the time it was done, and its
    /// visit intent follows.
    ///
    /// Fails, writing nothing, with NotFound when no ticket has that number
    /// in that type, and with BadRequest when the ticket is not being called.
    pub fn triage_queue_complete(&mut self, queue_number: i32, visit_type: VisitType, now: i64) -> (
        completed: Result<QueueTicket, AppError>)
        requires
            old(self).wf(),
        ensures
            final(self).wf(),
            final(self).patients@ == old(self).patients@,
            final(self).documents@ == old(self).documents@,
            old(self).completes(final(self), queue_number, visit_type, now, completed),
    {
        let found = self.find_index(queue_number, visit_type);
        match found {
            Some(at) => {
                proof {
                    self.ticket_is_at(at as int);
                }
                let current = self.tickets[at];
                if current.status == TicketStatus::Called {
                    let t = QueueTicket {
                        status: TicketStatus::Done,
                        done_at: Some(now),
                        ..current
                    };
                    self.replace_ticket(at, t);
                    match self.update_visit_intent_status(
                        t.visit_intent_id,
                        IntentStatus::Done,
                        now,
                    ) {
                        Ok(_) => Ok(t),
                        Err(e) => Err(e),
                    }
                } else {
                    proof {
                        assert forall|i: int|
                            holds_ticket(self.tickets@, i, visit_type, queue_number) implies i
                            == at by {
                            self.holder_is_unique(i, at as int, visit_type, queue_number);
                        }
                    }
                    Err(
                        AppError::BadRequest(
                            queue_message_text(
                                visit_type,
                                queue_number,
                                " is not currently being called",
                            ),
                        ),
                    )
                }
            },
            None => Err(
                AppError::NotFound(queue_message_text(visit_type, queue_number, " is not found")),
            ),
        }
    }

    /// Cancels the ticket with the given number in the given queue type: it
    /// becomes CANCELLED. Its visit intent is left as it is.
    ///
    /// Fails, writing nothing, with NotFound when no ticket has that number
    /// in that type, and with BadRequest when the ticket was called or is
    /// done.
    pub fn cancel_patient_queue(&mut self, queue_number: i32, visit_type: &VisitType) -> (cancelled:
        Result<QueueTicket, AppError>)
        requires
            old(self).wf(),
        ensures
            final(self).wf(),
            final(self).patients@ == old(self).patients@,
            final(self).intents@ == old(self).intents@,
            final(self).documents@ == old(self).documents@,
            old(self).cancels(final(self), queue_number, *visit_type, cancelled),
    {
        let found = self.find_index(queue_number, *visit_type);
        match found {
            Some(at) => {
                proof {
                    self.ticket_is_at(at as int);
                }
                let current = self.tickets[at];
                if current.status == TicketStatus::Called || current.status == TicketStatus::Done {
                    proof {
                        assert forall|i: int|
                            holds_ticket(self.tickets@, i, *visit_type, queue_number) implies i
                            == at by {
                            self.holder_is_unique(i, at as int, *visit_type, queue_number);
                        }
                    }
                    Err(
                        AppError::BadRequest(
                            queue_message_text(
                                *visit_type,
                                queue_number,
                                " is not currently being called",
                            ),
                        ),
                    )
                } else {
                    let t = QueueTicket { status: TicketStatus::Cancelled, ..current };
                    self.replace_ticket(at, t);
                    Ok(t)
                }
            },
            None => Err(
                AppError::NotFound(queue_message_text(*visit_type, queue_number, " is not found")),
            ),
        }
    }
    /// Whether the ticket at a position waits in the given queue type.
    pub open spec fn waits_at(&self, j: int, vt: VisitType) -> bool {
        &&& 0 <= j < self.tickets@.len()
        &&& self.tickets@[j].queue_type == vt
        &&& self.tickets@[j].status == TicketStatus::Waiting
    }

    /// Whether the ticket at position `a` is served before the one at `b`:
    /// it was created earlier, or at the same time and stored first.
    pub open spec fn served_before(&self, a: int, b: int) -> bool {
        self.tickets@[a].created_at < self.tickets@[b].created_at || (self.tickets@[a].created_at
            == self.tickets@[b].created_at && a < b)
    }

    /// The listing line of the ticket at a position: its number and status,
    /// the time it was created, and the patient of its visit intent.
    pub open spec fn item_at(&self, j: int) -> TriageQueueItem {
        TriageQueueItem {
            queue_number: self.tickets@[j].queue_number,
            patient_id: self.intents@[intent_slot(self.intents@, self.tickets@[j].visit_intent_id)].patient_id,
            status: self.tickets@[j].status,
            created_at: self.tickets@[j].created_at,
        }
    }

    /// Whether a sequence of ticket positions is the serving order of a
    /// queue type: exactly the waiting tickets of the type, oldest first.
    pub open spec fn serves(&self, vt: VisitType, order: Seq<int>) -> bool {
        &&& forall|k: int| 0 <= k < order.len() ==> self.waits_at(#[trigger] order[k], vt)
        &&& forall|j: int| self.waits_at(j, vt) ==> #[trigger] order.contains(j)
        &&& forall|a: int, b: int|
            0 <= a < b < order.len() ==> self.served_before(#[trigger] order[a], #[trigger] order[b])
    }

    /// The listing lines of the tickets at the given positions.
    pub open spec fn listing(&self, order: Seq<int>) -> Seq<TriageQueueItem> {
        Seq::new(order.len(), |k: int| self.item_at(order[k]))
    }

    /// Whether every position of the sequence is that of a ticket before
    /// `upto` that waits in the queue type.
    pub open spec fn order_within(&self, vt: VisitType, order: Seq<int>, upto: int) -> bool {
        forall|k: int|
            0 <= k < order.len() ==> 0 <= #[trigger] order[k] < upto && self.waits_at(order[k], vt)
    }

    /// Whether the sequence holds the position of every ticket before `upto`
    /// that waits in the queue type.
    pub open spec fn order_covers(&self, vt: VisitType, order: Seq<int>, upto: int) -> bool {
        forall|j: int| 0 <= j < upto && self.waits_at(j, vt) ==> #[trigger] order.contains(j)
    }

    /// Whether each position of the sequence is served before the ones behind
    /// it.
    pub open spec fn order_sorted(&self, order: Seq<int>) -> bool {
        forall|a: int, b: int|
            0 <= a < b < order.len() ==> self.served_before(#[trigger] order[a], #[trigger] order[b])
    }

    /// Whether a sequence of ticket positions is the serving order of the
    /// tickets before position `upto`.
    pub open spec fn serves_upto(&self, vt: VisitType, order: Seq<int>, upto: int) -> bool {
        &&& self.order_within(vt, order, upto)
        &&& self.order_covers(vt, order, upto)
        &&& self.order_sorted(order)
    }

    proof fn grown_stays_within(&self, vt: VisitType, order: Seq<int>, i: int, p: int)
        requires
            self.order_within(vt, order, i),
            self.waits_at(i, vt),
            0 <= p <= order.len(),
        ensures
            self.order_within(vt, order.insert(p, i), i + 1),
    {
        let grown = order.insert(p, i);
        order.insert_ensures(p, i);
        assert forall|k: int| 0 <= k < grown.len() implies 0 <= #[trigger] grown[k] < i + 1
            && self.waits_at(grown[k], vt) by {
            if k < p {
                assert(grown[k] == order[k]);
            } else if k > p {
                assert(grown[k] == order[k - 1]);
            } else {
                assert(grown[k] == i);
            }
        }
    }

    proof fn grown_still_covers(&self, vt: VisitType, order: Seq<int>, i: int, p: int)
        requires
            self.order_covers(vt, order, i),
            0 <= p <= order.len(),
        ensures
            self.order_covers(vt, order.insert(p, i), i + 1),
    {
        let grown = order.insert(p, i);
        order.insert_ensures(p, i);
        assert forall|j: int| 0 <= j < i + 1 && self.waits_at(j, vt) implies #[trigger] grown.contains(
            j,
        ) by {
            if j == i {
                assert(grown[p] == j);
            } else {
                assert(order.contains(j));
                let k = choose|k: int| 0 <= k < order.len() && order[k] == j;
                if k < p {
                    assert(grown[k] == j);
                } else {
                    assert(grown[k + 1] == order[k]);
                    assert(grown[k + 1] == j);
                }
            }
        }
    }

    proof fn grown_stays_sorted(&self, vt: VisitType, order: Seq<int>, i: int, p: int)
        requires
            self.order_within(vt, order, i),
            self.order_sorted(order),
            0 <= p <= order.len(),
            forall|k: int|
                0 <= k < p ==> self.tickets@[#[trigger] order[k]].created_at
                    <= self.tickets@[i].created_at,
            p < order.len() ==> self.tickets@[order[p]].created_at > self.tickets@[i].created_at,
        ensures
            self.order_sorted(order.insert(p, i)),
    {
        let grown = order.insert(p, i);
        order.insert_ensures(p, i);
        assert forall|a: int, b: int| 0 <= a < b < grown.len() implies self.served_before(
            #[trigger] grown[a],
            #[trigger] grown[b],
        ) by {
            if b < p {
                assert(grown[a] == order[a]);
                assert(grown[b] == order[b]);
                assert(self.served_before(order[a], order[b]));
            } else if b == p {
                assert(grown[a] == order[a]);
                assert(grown[b] == i);
                assert(order[a] < i);
                assert(self.tickets@[order[a]].created_at <= self.tickets@[i].created_at);
            } else if a < p {
                assert(grown[a] == order[a]);
                assert(grown[b] == order[b - 1]);
                assert(self.served_before(order[a], order[b - 1]));
            } else if a == p {
                assert(grown[a] == i);
                assert(grown[b] == order[b - 1]);
                if b - 1 > p {
                    assert(self.served_before(order[p], order[b - 1]));
                }
                assert(self.tickets@[order[b - 1]].created_at > self.tickets@[i].created_at);
            } else {
                assert(grown[a] == order[a - 1]);
                assert(grown[b] == order[b - 1]);
                assert(self.served_before(order[a - 1], order[b - 1]));
            }
        }
    }

    proof fn listing_grows(&self, order: Seq<int>, i: int, p: int)
        requires
            0 <= p <= order.len(),
        ensures
            self.listing(order.insert(p, i)) == self.listing(order).insert(p, self.item_at(i)),
    {
        let grown = order.insert(p, i);
        let left = self.listing(grown);
        let right = self.listing(order).insert(p, self.item_at(i));
        order.insert_ensures(p, i);
        self.listing(order).insert_ensures(p, self.item_at(i));
        assert(left.len() == right.len());
        assert forall|k: int| 0 <= k < left.len() implies left[k] == right[k] by {
            if k < p {
                assert(grown[k] == order[k]);
                assert(right[k] == self.listing(order)[k]);
            } else if k > p {
                assert(grown[k] == order[k - 1]);
                assert(right[k] == self.listing(order)[k - 1]);
            } else {
                assert(grown[k] == i);
            }
        }
        assert(left =~= right);
    }

    proof fn order_grows(&self, vt: VisitType, order: Seq<int>, i: int, p: int)
        requires
            self.serves_upto(vt, order, i),
            self.waits_at(i, vt),
            0 <= p <= order.len(),
            forall|k: int|
                0 <= k < p ==> self.tickets@[#[trigger] order[k]].created_at
                    <= self.tickets@[i].created_at,
            p < order.len() ==> self.tickets@[order[p]].created_at > self.tickets@[i].created_at,
        ensures
            self.serves_upto(vt, order.insert(p, i), i + 1),
            self.listing(order.insert(p, i)) == self.listing(order).insert(p, self.item_at(i)),
    {
        self.grown_stays_within(vt, order, i, p);
        self.grown_still_covers(vt, order, i, p);
        self.grown_stays_sorted(vt, order, i, p);
        self.listing_grows(order, i, p);
    }

    /// Lists the waiting tickets of a queue type in serving order: oldest
    /// first, and among tickets created at the same time the one stored
    /// first.
    pub fn get_queue(&self, visit_type: &VisitType) -> (items: Vec<TriageQueueItem>)
        requires
            self.wf(),
        ensures
            exists|order: Seq<int>| #[trigger]
                self.serves(*visit_type, order) && items@ == self.listing(order),
            forall|k: int| 0 <= k < items@.len() ==> (#[trigger] items@[k]).status == TicketStatus::Waiting,
            forall|a: int, b: int|
                0 <= a < b < items@.len() ==> (#[trigger] items@[a]).created_at <= (
                #[trigger] items@[b]).created_at,
    {
        let vt = *visit_type;
        let mut items: Vec<TriageQueueItem> = Vec::new();
        let ghost mut order: Seq<int> = Seq::empty();
        let mut i: usize = 0;
        assert(items@ =~= self.listing(order));
        while i < self.tickets.len()
            invariant
                self.wf(),
                i <= self.tickets@.len(),
                self.serves_upto(vt, order, i as int),
                items@ == self.listing(order),
            decreases self.tickets@.len() - i,
        {
            let t = self.tickets[i];
            if t.queue_type == vt && t.status == TicketStatus::Waiting {
                let mut p: usize = 0;
                while p < items.len() && items[p].created_at <= t.created_at
                    invariant
                        p <= items@.len(),
                        forall|k: int| 0 <= k < p ==> (#[trigger] items@[k]).created_at <= t.created_at,
                    decreases items@.len() - p,
                {
                    p = p + 1;
                }
                let patient_id = match self.find_intent(t.visit_intent_id) {
                    Some(k) => {
                        proof {
                            self.intent_is_at(k as int);
                        }
                        self.intents[k].patient_id
                    },
                    None => 0,
                };
                let item = TriageQueueItem {
                    queue_number: t.queue_number,
                    patient_id,
                    status: t.status,
                    created_at: t.created_at,
                };
                proof {
                    assert forall|k: int| 0 <= k < p implies self.tickets@[#[trigger] order[k]].created_at
                        <= self.tickets@[i as int].created_at by {
                        assert(items@[k].created_at <= t.created_at);
                    }
                    if p < order.len() {
                        assert(items@[p as int].created_at > t.created_at);
                    }
                    self.order_grows(vt, order, i as int, p as int);
                    order = order.insert(p as int, i as int);
                }
                items.insert(p, item);
            }
            i = i + 1;
        }
        proof {
            assert(self.serves(vt, order));
            assert forall|k: int| 0 <= k < items@.len() implies (#[trigger] items@[k]).status
                == TicketStatus::Waiting by {
                assert(self.waits_at(order[k], vt));
            }
            assert forall|a: int, b: int| 0 <= a < b < items@.len() implies (#[trigger] items@[a]).created_at
                <= (#[trigger] items@[b]).created_at by {
                assert(self.served_before(order[a], order[b]));
            }
        }
        items
    }

    /// Whether a document is the one recorded for a stored referral file
    /// under the given identifier at the given time: it waits to be scanned.
    pub open spec fn document_of(
        d: ReferralDocument,
        id: int,
        filename: String,
        visit_id: i32,
        patient_id: i32,
        size: int,
        url: String,
        now: i64,
    ) -> bool {
        &&& d.id == id
        &&& d.patients_id == patient_id
        &&& d.visit_intent_id == visit_id
        &&& d.file_name == filename
        &&& d.file_size == size
        &&& d.status == DocumentStatus::Waiting
        &&& d.referral_document_url == url
        &&& d.scanned_at is None
        &&& d.created_at == now
        &&& d.updated_at == now
    }

    /// Records a stored referral file for a visit intent and links the
    /// intent to the new document.
    ///
    /// Fails, writing nothing, with NotFound when the visit intent does not
    /// exist, and with an internal error when no identifier is left.
    pub fn upload_referral_docs(
        &mut self,
        filename: String,
        visit_id: i32,
        patient_id: i32,
        file_bytes: &Vec<u8>,
        url: String,
        now: i64,
    ) -> (recorded: Result<ReferralDocument, AppError>)
        requires
            old(self).wf(),
        ensures
            final(self).wf(),
            final(self).patients@ == old(self).patients@,
            final(self).tickets@ == old(self).tickets@,
            match recorded {
                Ok(d) => {
                    &&& has_intent(old(self).intents@, visit_id)
                    &&& TriageRepo::document_of(
                        d,
                        next_id(document_ids(old(self).documents@)),
                        filename,
                        visit_id,
                        patient_id,
                        file_bytes@.len() as int,
                        url,
                        now,
                    )
                    &&& final(self).documents@ == old(self).documents@.push(d)
                    &&& final(self).intents@ == old(self).intents@.update(
                        intent_slot(old(self).intents@, visit_id),
                        VisitIntent {
                            referral_document_id: Some(d.id),
                            ..old(self).intents@[intent_slot(old(self).intents@, visit_id)]
                        },
                    )
                },
                Err(AppError::NotFound(m)) => {
                    &&& !has_intent(old(self).intents@, visit_id)
                    &&& final(self).documents@ == old(self).documents@
                    &&& final(self).intents@ == old(self).intents@
                    &&& m@ == "Visit intent not found"@
                },
                Err(AppError::Internal(_)) => {
                    &&& has_intent(old(self).intents@, visit_id)
                    &&& (next_id(document_ids(old(self).documents@)) > i32::MAX
                        || file_bytes@.len() > i64::MAX)
                    &&& final(self).documents@ == old(self).documents@
                    &&& final(self).intents@ == old(self).intents@
                },
                Err(_) => false,
            },
    {
        let at = match self.find_intent(visit_id) {
            Some(at) => at,
            None => {
                return Err(AppError::NotFound(String::from_str("Visit intent not found")));
            },
        };
        let id = match self.next_document_id() {
            Some(id) => id,
            None => {
                return Err(
                    AppError::Internal(String::from_str("Store error: no document id is left")),
                );
            },
        };
        if file_bytes.len() as u64 > 9223372036854775807u64 {
            return Err(AppError::Internal(String::from_str("Store error: file size out of range")));
        }
        proof {
            self.intent_is_at(at as int);
            next_id_keeps_order(document_ids(self.documents@), id);
        }
        let size = file_bytes.len() as i64;
        let stored = ReferralDocument {
            id,
            patients_id: patient_id,
            visit_intent_id: visit_id,
            file_name: filename.clone(),
            file_size: size,
            status: DocumentStatus::Waiting,
            referral_document_url: url.clone(),
            scanned_at: None,
            created_at: now,
            updated_at: now,
        };
        let copy = ReferralDocument {
            id,
            patients_id: patient_id,
            visit_intent_id: visit_id,
            file_name: filename,
            file_size: size,
            status: DocumentStatus::Waiting,
            referral_document_url: url,
            scanned_at: None,
            created_at: now,
            updated_at: now,
        };
        self.documents.push(stored);
        let v = self.intents[at];
        self.intents[at] = VisitIntent { referral_document_id: Some(id), ..v };
        proof {
            assert(document_ids(self.documents@) =~= document_ids(old(self).documents@).push(id));
            assert(intent_ids(self.intents@) =~= intent_ids(old(self).intents@));
        }
        Ok(copy)
    }

    fn ids_ordered(ids: &Vec<i32>) -> (ok: bool)
        ensures
            ok == ids_in_order(ids@),
    {
        if ids.len() > i32::MAX as usize {
            return false;
        }
        let mut j: usize = 0;
        while j < ids.len()
            invariant
                j <= ids@.len(),
                forall|k: int| 0 <= k < j ==> #[trigger] ids@[k] >= 1,
                forall|a: int, b: int| 0 <= a < b < j ==> #[trigger] ids@[a] < #[trigger] ids@[b],
            decreases ids@.len() - j,
        {
            if ids[j] < 1 {
                return false;
            }
            if j > 0 {
                if ids[j - 1] >= ids[j] {
                    return false;
                }
                assert forall|a: int| 0 <= a < j implies #[trigger] ids@[a] < ids@[j as int] by {
                    if a < j - 1 {
                        assert(ids@[a] < ids@[j - 1]);
                    }
                }
            }
            j = j + 1;
        }
        true
    }

    fn patient_id_list(&self) -> (ids: Vec<i32>)
        ensures
            ids@ == patient_ids(self.patients@),
    {
        let mut ids: Vec<i32> = Vec::new();
        let mut i: usize = 0;
        while i < self.patients.len()
            invariant
                i <= self.patients@.len(),
                ids@ == patient_ids(self.patients@).take(i as int),
            decreases self.patients@.len() - i,
        {
            ids.push(self.patients[i].id);
            assert(ids@ =~= patient_ids(self.patients@).take(i + 1));
            i = i + 1;
        }
        assert(patient_ids(self.patients@).take(i as int) =~= patient_ids(self.patients@));
        ids
    }

    fn intent_id_list(&self) -> (ids: Vec<i32>)
        ensures
            ids@ == intent_ids(self.intents@),
    {
        let mut ids: Vec<i32> = Vec::new();
        let mut i: usize = 0;
        while i < self.intents.len()
            invariant
                i <= self.intents@.len(),
                ids@ == intent_ids(self.intents@).take(i as int),
            decreases self.intents@.len() - i,
        {
            ids.push(self.intents[i].id);
            assert(ids@ =~= intent_ids(self.intents@).take(i + 1));
            i = i + 1;
        }
        assert(intent_ids(self.intents@).take(i as int) =~= intent_ids(self.intents@));
        ids
    }

    fn ticket_id_list(&self) -> (ids: Vec<i32>)
        ensures
            ids@ == ticket_ids(self.tickets@),
    {
        let mut ids: Vec<i32> = Vec::new();
        let mut i: usize = 0;
        while i < self.tickets.len()
            invariant
                i <= self.tickets@.len(),
                ids@ == ticket_ids(self.tickets@).take(i as int),
            decreases self.tickets@.len() - i,
        {
            ids.push(self.tickets[i].id);
            assert(ids@ =~= ticket_ids(self.tickets@).take(i + 1));
            i = i + 1;
        }
        assert(ticket_ids(self.tickets@).take(i as int) =~= ticket_ids(self.tickets@));
        ids
    }

    fn document_id_list(&self) -> (ids: Vec<i32>)
        ensures
            ids@ == document_ids(self.documents@),
    {
        let mut ids: Vec<i32> = Vec::new();
        let mut i: usize = 0;
        while i < self.documents.len()
            invariant
                i <= self.documents@.len(),
                ids@ == document_ids(self.documents@).take(i as int),
            decreases self.documents@.len() - i,
        {
            ids.push(self.documents[i].id);
            assert(ids@ =~= document_ids(self.documents@).take(i + 1));
            i = i + 1;
        }
        assert(document_ids(self.documents@).take(i as int) =~= document_ids(self.documents@));
        ids
    }

    fn national_ids_differ(&self) -> (ok: bool)
        ensures
            ok == (forall|i: int, j: int|
                0 <= i < j < self.patients@.len() ==> (#[trigger] self.patients@[i]).national_id@
                    != (#[trigger] self.patients@[j]).national_id@),
    {
        let mut j: usize = 0;
        while j < self.patients.len()
            invariant
                j <= self.patients@.len(),
                forall|a: int, b: int|
                    0 <= a < b < j ==> (#[trigger] self.patients@[a]).national_id@ != (
                    #[trigger] self.patients@[b]).national_id@,
            decreases self.patients@.len() - j,
        {
            let mut i: usize = 0;
            while i < j
                invariant
                    j < self.patients@.len(),
                    i <= j,
                    forall|a: int|
                        0 <= a < i ==> (#[trigger] self.patients@[a]).national_id@
                            != self.patients@[j as int].national_id@,
                decreases j - i,
            {
                if self.patients[i].national_id == self.patients[j].national_id {
                    return false;
                }
                i = i + 1;
            }
            j = j + 1;
        }
        true
    }

    fn intents_have_patients(&self) -> (ok: bool)
        ensures
            ok == (forall|i: int|
                0 <= i < self.intents@.len() ==> has_patient(
                    self.patients@,
                    (#[trigger] self.intents@[i]).patient_id,
                )),
    {
        let mut i: usize = 0;
        while i < self.intents.len()
            invariant
                i <= self.intents@.len(),
                forall|k: int|
                    0 <= k < i ==> has_patient(
                        self.patients@,
                        (#[trigger] self.intents@[k]).patient_id,
                    ),
            decreases self.intents@.len() - i,
        {
            if self.find_patient(self.intents[i].patient_id).is_none() {
                return false;
            }
            i = i + 1;
        }
        true
    }

    fn tickets_in_order(&self) -> (ok: bool)
        requires
            self.tickets@.len() <= i32::MAX,
        ensures
            ok == ({
                &&& forall|i: int|
                    0 <= i < self.tickets@.len() ==> {
                        &&& has_intent(self.intents@, (#[trigger] self.tickets@[i]).visit_intent_id)
                        &&& self.tickets@[i].queue_number == count_of_type(
                            self.tickets@.take(i),
                            self.tickets@[i].queue_type,
                        ) + 1
                        &&& self.tickets@[i].times_recorded()
                    }
                &&& forall|i: int, j: int|
                    0 <= i < j < self.tickets@.len() ==> (#[trigger] self.tickets@[i]).visit_intent_id
                        != (#[trigger] self.tickets@[j]).visit_intent_id
            }),
    {
        let mut common: usize = 0;
        let mut bpjs: usize = 0;
        let mut j: usize = 0;
        while j < self.tickets.len()
            invariant
                self.tickets@.len() <= i32::MAX,
                j <= self.tickets@.len(),
                common == count_of_type(self.tickets@.take(j as int), VisitType::COMMON),
                bpjs == count_of_type(self.tickets@.take(j as int), VisitType::BPJS),
                common <= j,
                bpjs <= j,
                forall|k: int|
                    0 <= k < j ==> {
                        &&& has_intent(self.intents@, (#[trigger] self.tickets@[k]).visit_intent_id)
                        &&& self.tickets@[k].queue_number == count_of_type(
                            self.tickets@.take(k),
                            self.tickets@[k].queue_type,
                        ) + 1
                        &&& self.tickets@[k].times_recorded()
                    },
                forall|a: int, b: int|
                    0 <= a < b < j ==> (#[trigger] self.tickets@[a]).visit_intent_id != (
                    #[trigger] self.tickets@[b]).visit_intent_id,
            decreases self.tickets@.len() - j,
        {
            let t = self.tickets[j];
            let earlier = match t.queue_type {
                VisitType::COMMON => common,
                VisitType::BPJS => bpjs,
            };
            let called_recorded = match t.status {
                TicketStatus::Called => t.called_at.is_some(),
                TicketStatus::Done => t.called_at.is_some() && t.done_at.is_some(),
                _ => true,
            };
            if self.find_intent(t.visit_intent_id).is_none() || t.queue_number as i64
                != earlier as i64 + 1 || !called_recorded {
                return false;
            }
            let mut i: usize = 0;
            while i < j
                invariant
                    j < self.tickets@.len(),
                    i <= j,
                    t == self.tickets@[j as int],
                    forall|a: int|
                        0 <= a < i ==> (#[trigger] self.tickets@[a]).visit_intent_id
                            != self.tickets@[j as int].visit_intent_id,
                decreases j - i,
            {
                if self.tickets[i].visit_intent_id == t.visit_intent_id {
                    return false;
                }
                i = i + 1;
            }
            assert(self.tickets@.take(j + 1).drop_last() =~= self.tickets@.take(j as int));
            match t.queue_type {
                VisitType::COMMON => {
                    common = common + 1;
                },
                VisitType::BPJS => {
                    bpjs = bpjs + 1;
                },
            }
            j = j + 1;
        }
        true
    }

    /// Tells whether the rows are consistent.
    pub fn consistent(&self) -> (ok: bool)
        ensures
            ok == self.wf(),
    {
        if !TriageRepo::ids_ordered(&self.patient_id_list()) || !TriageRepo::ids_ordered(
            &self.intent_id_list(),
        ) || !TriageRepo::ids_ordered(&self.ticket_id_list()) || !TriageRepo::ids_ordered(
            &self.document_id_list(),
        ) {
            return false;
        }
        self.national_ids_differ() && self.intents_have_patients() && self.tickets_in_order()
    }

    /// A store of the given rows, if they are consistent.
    pub fn from_rows(
        patients: Vec<Patient>,
        intents: Vec<VisitIntent>,
        tickets: Vec<QueueTicket>,
        documents: Vec<ReferralDocument>,
    ) -> (repo: Option<TriageRepo>)
        ensures
            repo == (if (TriageRepo { patients, intents, tickets, documents }).wf() {
                Some(TriageRepo { patients, intents, tickets, documents })
            } else {
                None
            }),
    {
        let candidate = TriageRepo { patients, intents, tickets, documents };
        if candidate.consistent() {
            Some(candidate)
        } else {
            None
        }
    }
}

} // verus!
