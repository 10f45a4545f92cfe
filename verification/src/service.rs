use vstd::prelude::*;
use vstd::string::*;
use crate::cache::{CachedModel, CachedView, Stored, ViewCache};
use crate::dto::{
    copy_items, CreateTriageResponse, ReferralUploadMetadata, ReferralUploadResponse,
    TriagePatientCalled, TriagePatientCancel, TriageQueueComplete, TriageQueueResponse,
    TriageQueueStatus,
};
use crate::error::AppError;
use crate::model::{
    parse_visit_type, unknown_visit_type_message, CreateTriageRequest, DocumentStatus,
    QueueTicket, ReferralDocument, TicketStatus, VisitType,
};
use crate::upload::{
    referral_address, referral_file_name, referral_name, referral_url, REFERRAL_BUCKET,
};
use crate::repo::{
    count_of_type, document_ids, has_intent, intent_ids, intent_slot, issued, next_id,
    patient_ids, recorded, registered, ticket_ids, TriageRepo,
};
use crate::text::{decimal, int_text, lowercase_of};

verus! {

/// How long a cached view is served, in seconds.
pub const CACHE_TTL_SECONDS: u64 = 300;

/// The cache key of a queue listing.
pub open spec fn queue_key(vt: VisitType) -> Seq<char> {
    "triage:queue:"@ + vt.name()
}

/// The cache key of a view of one ticket: the operation's prefix, the queue
/// type, `:id:` and the ticket's number.
pub open spec fn ticket_key(prefix: Seq<char>, vt: VisitType, n: i32) -> Seq<char> {
    prefix + vt.name() + ":id:"@ + decimal(n as int)
}

/// The cache key of a ticket's status.
pub open spec fn status_key(vt: VisitType, n: i32) -> Seq<char> {
    ticket_key("triage:queue:"@, vt, n)
}

/// The cache key of the answer to calling a patient.
pub open spec fn call_key(vt: VisitType, n: i32) -> Seq<char> {
    ticket_key("call:queue:"@, vt, n)
}

/// The cache key of the answer to completing triage.
pub open spec fn complete_key(vt: VisitType, n: i32) -> Seq<char> {
    ticket_key("complete:queue:"@, vt, n)
}

/// The cache key of the answer to cancelling a ticket.
pub open spec fn cancel_key(vt: VisitType, n: i32) -> Seq<char> {
    ticket_key("cancel:queue:"@, vt, n)
}

/// Builds the cache key of a queue listing.
pub fn queue_key_text(vt: VisitType) -> (key: String)
    ensures
        key@ == queue_key(vt),
{
    String::from_str("triage:queue:").concat(vt.to_string().as_str())
}

/// Builds the cache key of a view of one ticket.
pub fn ticket_key_text(prefix: &str, vt: VisitType, n: i32) -> (key: String)
    ensures
        key@ == ticket_key(prefix@, vt, n),
{
    let mut key = String::from_str(prefix);
    key.append(vt.to_string().as_str());
    key.append(":id:");
    key.append(int_text(n as i64).as_str());
    key
}

/// Builds the cache key of a ticket's status.
pub fn status_key_text(vt: VisitType, n: i32) -> (key: String)
    ensures
        key@ == status_key(vt, n),
{
    ticket_key_text("triage:queue:", vt, n)
}

/// Builds the cache key of the answer to calling a patient.
pub fn call_key_text(vt: VisitType, n: i32) -> (key: String)
    ensures
        key@ == call_key(vt, n),
{
    ticket_key_text("call:queue:", vt, n)
}

/// Builds the cache key of the answer to completing triage.
pub fn complete_key_text(vt: VisitType, n: i32) -> (key: String)
    ensures
        key@ == complete_key(vt, n),
{
    ticket_key_text("complete:queue:", vt, n)
}

/// Builds the cache key of the answer to cancelling a ticket.
pub fn cancel_key_text(vt: VisitType, n: i32) -> (key: String)
    ensures
        key@ == cancel_key(vt, n),
{
    ticket_key_text("cancel:queue:", vt, n)
}

/// Space, tab, line feed, vertical tab, form feed and carriage return.
pub open spec fn is_space(c: char) -> bool {
    c == ' ' || c == '\t' || c == '\n' || c == '\r' || c == '\u{b}' || c == '\u{c}'
}

/// Whether a text holds nothing but white space.
pub open spec fn is_blank(text: Seq<char>) -> bool {
    forall|i: int| 0 <= i < text.len() ==> is_space(#[trigger] text[i])
}

/// Whether the request carries the referral reference that its visit type
/// asks for: a BPJS visit needs a BPJS number that is not blank.
pub open spec fn referral_present(payload: &CreateTriageRequest) -> bool {
    payload.visit_type == VisitType::BPJS ==> match payload.bpjs_number {
        Some(reference) => !is_blank(reference@),
        None => false,
    }
}

/// Tells whether a text holds nothing but white space.
pub fn blank(text: &str) -> (b: bool)
    ensures
        b == is_blank(text@),
{
    let n = text.unicode_len();
    let mut i: usize = 0;
    while i < n
        invariant
            n == text@.len(),
            i <= n,
            forall|k: int| 0 <= k < i ==> is_space(#[trigger] text@[k]),
        decreases n - i,
    {
        let c = text.get_char(i);
        if !(c == ' ' || c == '\t' || c == '\n' || c == '\r' || c == '\u{b}' || c == '\u{c}') {
            return false;
        }
        i = i + 1;
    }
    true
}

/// Tells whether the request carries the referral reference that its visit
/// type asks for.
pub fn has_referral(payload: &CreateTriageRequest) -> (b: bool)
    ensures
        b == referral_present(payload),
{
    match payload.visit_type {
        VisitType::COMMON => true,
        VisitType::BPJS => match &payload.bpjs_number {
            Some(reference) => !blank(reference.as_str()),
            None => false,
        },
    }
}

/// Whether an answer rejects a text that names no queue type: a bad request
/// whose message names the text in lower case.
pub open spec fn rejects_type<T>(text: Seq<char>, answer: Result<T, AppError>) -> bool {
    match answer {
        Err(AppError::BadRequest(m)) => m@ == unknown_visit_type_message(lowercase_of(text)),
        _ => false,
    }
}

/// The triage desk: the store of record and, in front of it, the cache of
/// derived views.
pub struct TriageService {
    pub repo: TriageRepo,
    pub cache: ViewCache,
}

impl TriageService {
    /// The store is consistent and no cache key has two entries.
    pub open spec fn wf(&self) -> bool {
        self.repo.wf() && self.cache.wf()
    }

    /// Whether the store holds the same rows as another.
    pub open spec fn same_rows(&self, other: &TriageService) -> bool {
        &&& self.repo.patients@ == other.repo.patients@
        &&& self.repo.intents@ == other.repo.intents@
        &&& self.repo.tickets@ == other.repo.tickets@
        &&& self.repo.documents@ == other.repo.documents@
    }

    /// Whether this is the state after nothing was written to `pre`.
    pub open spec fn untouched(&self, pre: &TriageService) -> bool {
        self.same_rows(pre) && self.cache == pre.cache
    }

    /// Whether the cache is that of `pre` after one write: the view under the
    /// key, written at `now` to live for the cache's time to live, and every
    /// other key as before.
    pub open spec fn cached(&self, pre: &TriageService, key: Seq<char>, view: CachedModel, now: i64) -> bool {
        &&& self.cache.stored(key) == Some(
            Stored { value: view, written_at: now, ttl_seconds: CACHE_TTL_SECONDS },
        )
        &&& forall|other: Seq<char>|
            other != key ==> self.cache.stored(other) == pre.cache.stored(other)
    }

    /// Whether the store has run out of identifiers for an intake of this
    /// request.
    pub open spec fn out_of_ids(&self, payload: &CreateTriageRequest) -> bool {
        ||| next_id(intent_ids(self.repo.intents@)) > i32::MAX
        ||| next_id(ticket_ids(self.repo.tickets@)) > i32::MAX
        ||| (!registered(self.repo.patients@, payload.national_id@) && next_id(
            patient_ids(self.repo.patients@),
        ) > i32::MAX)
    }

    /// How an intake relates the desk before and after to what is answered.
    ///
    /// A BPJS visit without a referral reference is a bad request. Otherwise
    /// the patient is found or registered, a visit intent is recorded for the
    /// patient, and the ticket of that intent is issued in the queue of the
    /// visit type; the answer names the three. When the store has no
    /// identifier left it is an internal error. On any error nothing is
    /// written. The cache is never touched.
    pub open spec fn takes_in(
        &self,
        post: &TriageService,
        payload: &CreateTriageRequest,
        now: i64,
        answer: Result<CreateTriageResponse, AppError>,
    ) -> bool {
        &&& post.cache == self.cache
        &&& post.repo.documents@ == self.repo.documents@
        &&& match answer {
            Ok(r) => {
                &&& referral_present(payload)
                &&& !self.out_of_ids(payload)
                &&& exists|p: crate::model::Patient| #[trigger]
                    self.repo.registers(&post.repo, payload, now, Ok(p)) && p.id == r.patient_id
                &&& post.repo.intents@ == self.repo.intents@.push(
                    recorded(self.repo.intents@, r.patient_id, payload.visit_type, now),
                )
                &&& post.repo.tickets@ == self.repo.tickets@.push(
                    issued(self.repo.tickets@, r.visit_intent_id, payload.visit_type, now),
                )
                &&& r.visit_intent_id == next_id(intent_ids(self.repo.intents@))
                &&& r.queue_number == count_of_type(self.repo.tickets@, payload.visit_type) + 1
                &&& r.queue_type == payload.visit_type
                &&& r.status == TicketStatus::Waiting
            },
            Err(AppError::BadRequest(m)) => {
                &&& !referral_present(payload)
                &&& post.same_rows(self)
                &&& m@ == "BPJS visit requires a referral reference"@
            },
            Err(AppError::Internal(_)) => {
                &&& referral_present(payload)
                &&& self.out_of_ids(payload)
                &&& post.same_rows(self)
            },
            Err(_) => false,
        }
    }

    /// How listing a queue relates the desk before and after to what is
    /// answered.
    ///
    /// A listing cached under the queue's key and still live is answered as
    /// it is, and nothing is written. Otherwise the waiting tickets of the
    /// type are listed from the store in serving order, and the listing is
    /// cached. The store is never written.
    pub open spec fn lists(
        &self,
        post: &TriageService,
        vt: VisitType,
        now: i64,
        answer: TriageQueueResponse,
    ) -> bool {
        &&& post.same_rows(self)
        &&& answer.visit_type == vt
        &&& match self.cache.served(queue_key(vt), now) {
            Some(CachedModel::Queue(items)) => answer.data@ == items && post.cache == self.cache,
            _ => {
                &&& exists|order: Seq<int>| #[trigger]
                    self.repo.serves(vt, order) && answer.data@ == self.repo.listing(order)
                &&& post.cached(self, queue_key(vt), CachedModel::Queue(answer.data@), now)
            },
        }
    }

    /// How reading a ticket's status relates the desk before and after to
    /// what is answered.
    ///
    /// A status cached under the ticket's key and still live is answered as
    /// it is. Otherwise the ticket is looked up in the store; its status
    /// view is cached and answered, or the lookup's error is answered and
    /// nothing is cached. The store is never written.
    pub open spec fn reads_status(
        &self,
        post: &TriageService,
        vt: VisitType,
        n: i32,
        now: i64,
        answer: Result<TriageQueueStatus, AppError>,
    ) -> bool {
        &&& post.same_rows(self)
        &&& match self.cache.served(status_key(vt, n), now) {
            Some(CachedModel::Status(s)) => answer == Ok::<TriageQueueStatus, AppError>(s)
                && post.cache == self.cache,
            _ => exists|found: Result<QueueTicket, AppError>| #[trigger]
                self.repo.looks_up(n, vt, found) && match found {
                    Ok(t) => {
                        &&& answer == Ok::<TriageQueueStatus, AppError>(TriageQueueStatus::of(t))
                        &&& post.cached(
                            self,
                            status_key(vt, n),
                            CachedModel::Status(TriageQueueStatus::of(t)),
                            now,
                        )
                    },
                    Err(e) => answer == Err::<TriageQueueStatus, AppError>(e) && post.cache
                        == self.cache,
                },
        }
    }

    /// How calling a patient relates the desk before and after to what is
    /// answered.
    ///
    /// An answer cached under the call's key and still live is answered
    /// again, and the store is not touched. Otherwise the store calls the
    /// patient; on success the answer is cached, on failure the store's error
    /// is answered and nothing is cached.
    pub open spec fn calls_through(
        &self,
        post: &TriageService,
        vt: VisitType,
        n: i32,
        now: i64,
        answer: Result<TriagePatientCalled, AppError>,
    ) -> bool {
        match self.cache.served(call_key(vt, n), now) {
            Some(CachedModel::Called(c)) => answer == Ok::<TriagePatientCalled, AppError>(c)
                && post.untouched(self),
            _ => exists|called: Result<QueueTicket, AppError>| #[trigger]
                self.repo.calls(&post.repo, n, vt, now, called) && {
                    &&& post.repo.patients@ == self.repo.patients@
                    &&& post.repo.documents@ == self.repo.documents@
                    &&& match called {
                        Ok(t) => {
                            &&& answer == Ok::<TriagePatientCalled, AppError>(
                                TriagePatientCalled::of(t),
                            )
                            &&& post.cached(
                                self,
                                call_key(vt, n),
                                CachedModel::Called(TriagePatientCalled::of(t)),
                                now,
                            )
                        },
                        Err(e) => answer == Err::<TriagePatientCalled, AppError>(e) && post.cache
                            == self.cache,
                    }
                },
        }
    }

    /// How completing triage relates the desk before and after to what is
    /// answered.
    ///
    /// An answer cached under the completion's key and still live is
    /// answered again, and the store is not touched. Otherwise the store
    /// completes the ticket; on success the answer is cached, on failure the
    /// store's error is answered and nothing is cached.
    pub open spec fn completes_through(
        &self,
        post: &TriageService,
        vt: VisitType,
        n: i32,
        now: i64,
        answer: Result<TriageQueueComplete, AppError>,
    ) -> bool {
        match self.cache.served(complete_key(vt, n), now) {
            Some(CachedModel::Complete(c)) => answer == Ok::<TriageQueueComplete, AppError>(c)
                && post.untouched(self),
            _ => exists|completed: Result<QueueTicket, AppError>| #[trigger]
                self.repo.completes(&post.repo, n, vt, now, completed) && {
                    &&& post.repo.patients@ == self.repo.patients@
                    &&& post.repo.documents@ == self.repo.documents@
                    &&& match completed {
                        Ok(t) => {
                            &&& answer == Ok::<TriageQueueComplete, AppError>(
                                TriageQueueComplete::of(t),
                            )
                            &&& post.cached(
                                self,
                                complete_key(vt, n),
                                CachedModel::Complete(TriageQueueComplete::of(t)),
                                now,
                            )
                        },
                        Err(e) => answer == Err::<TriageQueueComplete, AppError>(e) && post.cache
                            == self.cache,
                    }
                },
        }
    }

    /// How cancelling a ticket relates the desk before and after to what is
    /// answered.
    ///
    /// An answer cached under the cancellation's key and still live is
    /// answered again, and the store is not touched. Otherwise the ticket is
    /// looked up, which fails with NotFound when there is none, and the store
    /// cancels it; on success the answer, with the status the ticket had
    /// before, is cached, on failure the store's error is answered and
    /// nothing is cached.
    pub open spec fn cancels_through(
        &self,
        post: &TriageService,
        vt: VisitType,
        n: i32,
        now: i64,
        answer: Result<TriagePatientCancel, AppError>,
    ) -> bool {
        match self.cache.served(cancel_key(vt, n), now) {
            Some(CachedModel::Cancel(c)) => answer == Ok::<TriagePatientCancel, AppError>(c)
                && post.untouched(self),
            _ => exists|found: Result<QueueTicket, AppError>| #[trigger]
                self.repo.looks_up(n, vt, found) && match found {
                    Err(e) => answer == Err::<TriagePatientCancel, AppError>(e) && post.untouched(
                        self,
                    ),
                    Ok(before) => exists|cancelled: Result<QueueTicket, AppError>| #[trigger]
                        self.repo.cancels(&post.repo, n, vt, cancelled) && {
                            &&& post.repo.patients@ == self.repo.patients@
                            &&& post.repo.documents@ == self.repo.documents@
                            &&& match cancelled {
                                Ok(t) => {
                                    &&& answer == Ok::<TriagePatientCancel, AppError>(
                                        TriagePatientCancel::of(t, before.status),
                                    )
                                    &&& post.cached(
                                        self,
                                        cancel_key(vt, n),
                                        CachedModel::Cancel(
                                            TriagePatientCancel::of(t, before.status),
                                        ),
                                        now,
                                    )
                                },
                                Err(e) => answer == Err::<TriagePatientCancel, AppError>(e)
                                    && post.cache == self.cache,
                            }
                        },
                },
        }
    }

    /// A desk with an empty store and an empty cache.
    pub fn new() -> (desk: TriageService)
        ensures
            desk.wf(),
            desk.repo.patients@.len() == 0,
            desk.repo.intents@.len() == 0,
            desk.repo.tickets@.len() == 0,
            desk.repo.documents@.len() == 0,
            forall|key: Seq<char>| desk.cache.stored(key) is None,
    {
        TriageService { repo: TriageRepo::new(), cache: ViewCache::new() }
    }

    /// Takes a patient in: finds or registers the patient, records the visit
    /// intent and issues the queue ticket, all or nothing.
    pub fn perform_triage(&mut self, payload: CreateTriageRequest, now: i64) -> (answer: Result<
        CreateTriageResponse,
        AppError,
    >)
        requires
            old(self).wf(),
        ensures
            final(self).wf(),
            old(self).takes_in(final(self), &payload, now, answer),
    {
        if !has_referral(&payload) {
            return Err(
                AppError::BadRequest(String::from_str("BPJS visit requires a referral reference")),
            );
        }
        if self.repo.next_intent_id().is_none() || self.repo.next_ticket_id().is_none() {
            return Err(AppError::Internal(String::from_str("Store error: no id is left")));
        }
        let patient = match self.repo.find_or_create_patient(&payload, now) {
            Ok(p) => p,
            Err(e) => {
                return Err(e);
            },
        };
        proof {
            let patients = self.repo.patients@;
            if !registered(old(self).repo.patients@, payload.national_id@) {
                assert(patient_ids(patients)[patients.len() - 1] == patient.id);
            }
            assert(crate::repo::has_patient(patients, patient.id));
        }
        let intent = match self.repo.create_visit_intent(patient.id, &payload, now) {
            Ok(v) => v,
            Err(e) => {
                return Err(e);
            },
        };
        proof {
            let ids = intent_ids(old(self).repo.intents@);
            crate::repo::next_id_keeps_order(ids, intent.id);
            assert forall|k: int| 0 <= k < self.repo.tickets@.len() implies (
            #[trigger] self.repo.tickets@[k]).visit_intent_id != intent.id by {
                assert(has_intent(old(self).repo.intents@, old(self).repo.tickets@[k].visit_intent_id));
            }
            assert(!crate::repo::ticketed(self.repo.tickets@, intent.id));
            assert(intent_ids(self.repo.intents@)[self.repo.intents@.len() - 1] == intent.id);
            assert(has_intent(self.repo.intents@, intent.id));
        }
        let ticket = match self.repo.create_queue_ticket(intent.id, payload.visit_type, now) {
            Ok(t) => t,
            Err(e) => {
                return Err(e);
            },
        };
        proof {
            let tickets = old(self).repo.tickets@;
            crate::repo::count_grows(
                tickets,
                payload.visit_type,
                tickets.len() as int,
                tickets.len() as int,
            );
            assert(tickets.take(tickets.len() as int) =~= tickets);
            assert(old(self).repo.registers(&self.repo, &payload, now, Ok(patient)));
        }
        Ok(
            CreateTriageResponse {
                patient_id: patient.id,
                visit_intent_id: intent.id,
                queue_number: ticket.queue_number,
                queue_type: ticket.queue_type,
                status: ticket.status,
            },
        )
    }

    /// Lists the waiting tickets of a queue type in serving order, from the
    /// cache while a listing is live there and from the store otherwise.
    pub fn queue_of(&mut self, vt: VisitType, now: i64) -> (answer: TriageQueueResponse)
        requires
            old(self).wf(),
        ensures
            final(self).wf(),
            old(self).lists(final(self), vt, now, answer),
    {
        let key = queue_key_text(vt);
        match self.cache.get(key.as_str(), now) {
            Some(CachedView::Queue(items)) => {
                let data = copy_items(items);
                return TriageQueueResponse { visit_type: vt, data };
            },
            _ => {},
        }
        let data = self.repo.get_queue(&vt);
        let kept = copy_items(&data);
        self.cache.set(key.as_str(), CachedView::Queue(kept), CACHE_TTL_SECONDS, now);
        TriageQueueResponse { visit_type: vt, data }
    }

    /// Reads where a ticket stands, from the cache while its status is live
    /// there and from the store otherwise.
    pub fn status_of(&mut self, vt: VisitType, n: i32, now: i64) -> (answer: Result<
        TriageQueueStatus,
        AppError,
    >)
        requires
            old(self).wf(),
        ensures
            final(self).wf(),
            old(self).reads_status(final(self), vt, n, now, answer),
    {
        let key = status_key_text(vt, n);
        match self.cache.get(key.as_str(), now) {
            Some(CachedView::Status(s)) => {
                return Ok(*s);
            },
            _ => {},
        }
        let found = self.repo.get_status_by_queue_number(n, vt);
        match found {
            Ok(t) => {
                let view = TriageQueueStatus {
                    queue_number: t.queue_number,
                    queue_type: t.queue_type,
                    status: t.status,
                    created_at: t.created_at,
                };
                self.cache.set(key.as_str(), CachedView::Status(view), CACHE_TTL_SECONDS, now);
                proof {
                    assert(old(self).repo.looks_up(n, vt, found));
                }
                Ok(view)
            },
            Err(e) => {
                proof {
                    assert(old(self).repo.looks_up(n, vt, found));
                }
                Err(e)
            },
        }
    }

    /// Calls a patient of a queue type, unless the answer to that call is
    /// live in the cache.
    pub fn call_in(&mut self, vt: VisitType, n: i32, now: i64) -> (answer: Result<
        TriagePatientCalled,
        AppError,
    >)
        requires
            old(self).wf(),
        ensures
            final(self).wf(),
            old(self).calls_through(final(self), vt, n, now, answer),
    {
        let key = call_key_text(vt, n);
        match self.cache.get(key.as_str(), now) {
            Some(CachedView::Called(c)) => {
                return Ok(*c);
            },
            _ => {},
        }
        let called = self.repo.call_patient(n, vt, now);
        proof {
            assert(old(self).repo.calls(&self.repo, n, vt, now, called));
        }
        match called {
            Ok(t) => {
                let at = match t.called_at {
                    Some(at) => at,
                    None => now,
                };
                let view = TriagePatientCalled {
                    queue_number: t.queue_number,
                    queue_type: t.queue_type,
                    called_at: at,
                };
                self.cache.set(key.as_str(), CachedView::Called(view), CACHE_TTL_SECONDS, now);
                proof {
                    assert(view == TriagePatientCalled::of(t));
                    assert(old(self).repo.calls(&self.repo, n, vt, now, called));
                }
                Ok(view)
            },
            Err(e) => {
                proof {
                    assert(old(self).repo.calls(&self.repo, n, vt, now, called));
                }
                Err(e)
            },
        }
    }

    /// Completes triage for a ticket of a queue type, unless the answer to
    /// that completion is live in the cache.
    pub fn complete_in(&mut self, vt: VisitType, n: i32, now: i64) -> (answer: Result<
        TriageQueueComplete,
        AppError,
    >)
        requires
            old(self).wf(),
        ensures
            final(self).wf(),
            old(self).completes_through(final(self), vt, n, now, answer),
    {
        let key = complete_key_text(vt, n);
        match self.cache.get(key.as_str(), now) {
            Some(CachedView::Complete(c)) => {
                return Ok(*c);
            },
            _ => {},
        }
        let completed = self.repo.triage_queue_complete(n, vt, now);
        proof {
            assert(old(self).repo.completes(&self.repo, n, vt, now, completed));
        }
        match completed {
            Ok(t) => {
                let called_at = match t.called_at {
                    Some(at) => at,
                    None => now,
                };
                let done_at = match t.done_at {
                    Some(at) => at,
                    None => now,
                };
                let view = TriageQueueComplete {
                    queue_number: t.queue_number,
                    queue_type: t.queue_type,
                    status: t.status,
                    called_at,
                    done_at,
                };
                self.cache.set(key.as_str(), CachedView::Complete(view), CACHE_TTL_SECONDS, now);
                proof {
                    assert(view == TriageQueueComplete::of(t));
                    assert(old(self).repo.completes(&self.repo, n, vt, now, completed));
                }
                Ok(view)
            },
            Err(e) => {
                proof {
                    assert(old(self).repo.completes(&self.repo, n, vt, now, completed));
                }
                Err(e)
            },
        }
    }

    /// Cancels a ticket of a queue type, unless the answer to that
    /// cancellation is live in the cache.
    pub fn cancel_in(&mut self, vt: VisitType, n: i32, now: i64) -> (answer: Result<
        TriagePatientCancel,
        AppError,
    >)
        requires
            old(self).wf(),
        ensures
            final(self).wf(),
            old(self).cancels_through(final(self), vt, n, now, answer),
    {
        let key = cancel_key_text(vt, n);
        match self.cache.get(key.as_str(), now) {
            Some(CachedView::Cancel(c)) => {
                return Ok(*c);
            },
            _ => {},
        }
        let found = self.repo.get_status_by_queue_number(n, vt);
        proof {
            assert(old(self).repo.looks_up(n, vt, found));
        }
        let before = match found {
            Ok(t) => t,
            Err(e) => {
                return Err(e);
            },
        };
        let cancelled = self.repo.cancel_patient_queue(n, &vt);
        proof {
            assert(old(self).repo.cancels(&self.repo, n, vt, cancelled));
        }
        match cancelled {
            Ok(t) => {
                let view = TriagePatientCancel {
                    queue_number: t.queue_number,
                    queue_type: t.queue_type,
                    previous_status: before.status,
                    new_status: t.status,
                };
                self.cache.set(key.as_str(), CachedView::Cancel(view), CACHE_TTL_SECONDS, now);
                proof {
                    assert(view == TriagePatientCancel::of(t, before.status));
                    assert(old(self).repo.cancels(&self.repo, n, vt, cancelled));
                    assert(old(self).repo.looks_up(n, vt, found));
                }
                Ok(view)
            },
            Err(e) => {
                proof {
                    assert(old(self).repo.cancels(&self.repo, n, vt, cancelled));
                    assert(old(self).repo.looks_up(n, vt, found));
                }
                Err(e)
            },
        }
    }
    /// Lists the waiting tickets of the queue type that a text names,
    /// whatever its letter case. A text that names none is a bad request.
    pub fn get_triage_queue(&mut self, visit_type: String, now: i64) -> (answer: Result<
        TriageQueueResponse,
        AppError,
    >)
        requires
            old(self).wf(),
        ensures
            final(self).wf(),
            match VisitType::named_in_lowercase(lowercase_of(visit_type@)) {
                Some(vt) => match answer {
                    Ok(listing) => old(self).lists(final(self), vt, now, listing),
                    Err(_) => false,
                },
                None => rejects_type(visit_type@, answer) && final(self).untouched(old(self)),
            },
    {
        match parse_visit_type(visit_type.as_str()) {
            Ok(vt) => Ok(self.queue_of(vt, now)),
            Err(e) => Err(e),
        }
    }

    /// Reads where a ticket stands in the queue type that a text names,
    /// whatever its letter case. A text that names none is a bad request.
    pub fn get_triage_queue_status_by_id(&mut self, visit_type: String, queue_number: i32, now: i64) -> (
        answer: Result<TriageQueueStatus, AppError>)
        requires
            old(self).wf(),
        ensures
            final(self).wf(),
            match VisitType::named_in_lowercase(lowercase_of(visit_type@)) {
                Some(vt) => old(self).reads_status(final(self), vt, queue_number, now, answer),
                None => rejects_type(visit_type@, answer) && final(self).untouched(old(self)),
            },
    {
        match parse_visit_type(visit_type.as_str()) {
            Ok(vt) => self.status_of(vt, queue_number, now),
            Err(e) => Err(e),
        }
    }

    /// Calls a patient of the queue type that a text names, whatever its
    /// letter case. A text that names none is a bad request.
    pub fn call_patient(&mut self, visit_type: String, queue_number: i32, now: i64) -> (answer: Result<
        TriagePatientCalled,
        AppError,
    >)
        requires
            old(self).wf(),
        ensures
            final(self).wf(),
            match VisitType::named_in_lowercase(lowercase_of(visit_type@)) {
                Some(vt) => old(self).calls_through(final(self), vt, queue_number, now, answer),
                None => rejects_type(visit_type@, answer) && final(self).untouched(old(self)),
            },
    {
        match parse_visit_type(visit_type.as_str()) {
            Ok(vt) => self.call_in(vt, queue_number, now),
            Err(e) => Err(e),
        }
    }

    /// Completes triage for a ticket of the queue type that a text names,
    /// whatever its letter case. A text that names none is a bad request.
    pub fn triage_complete(&mut self, visit_type: String, queue_number: i32, now: i64) -> (answer: Result<
        TriageQueueComplete,
        AppError,
    >)
        requires
            old(self).wf(),
        ensures
            final(self).wf(),
            match VisitType::named_in_lowercase(lowercase_of(visit_type@)) {
                Some(vt) => old(self).completes_through(final(self), vt, queue_number, now, answer),
                None => rejects_type(visit_type@, answer) && final(self).untouched(old(self)),
            },
    {
        match parse_visit_type(visit_type.as_str()) {
            Ok(vt) => self.complete_in(vt, queue_number, now),
            Err(e) => Err(e),
        }
    }

    /// Cancels a ticket of the queue type that a text names, whatever its
    /// letter case. A text that names none is a bad request.
    pub fn cancel_patient_queue(&mut self, visit_type: String, queue_number: i32, now: i64) -> (answer:
        Result<TriagePatientCancel, AppError>)
        requires
            old(self).wf(),
        ensures
            final(self).wf(),
            match VisitType::named_in_lowercase(lowercase_of(visit_type@)) {
                Some(vt) => old(self).cancels_through(final(self), vt, queue_number, now, answer),
                None => rejects_type(visit_type@, answer) && final(self).untouched(old(self)),
            },
    {
        match parse_visit_type(visit_type.as_str()) {
            Ok(vt) => self.cancel_in(vt, queue_number, now),
            Err(e) => Err(e),
        }
    }
    /// Records a referral file that was stored for a visit intent.
    ///
    /// The file's name is built from the token, the patient, the visit and
    /// the file's extension, and its address from the bucket and that name;
    /// the document is recorded under both and waits to be scanned, and the
    /// visit intent is linked to it. Fails, writing nothing, with NotFound
    /// when the visit intent does not exist, and with an internal error when
    /// no identifier is left. The cache is never touched.
    pub fn handle_referral_upload(
        &mut self,
        visit_id: i32,
        patient_id: i32,
        metadata: ReferralUploadMetadata,
        token: &str,
        now: i64,
    ) -> (answer: Result<ReferralUploadResponse, AppError>)
        requires
            old(self).wf(),
        ensures
            final(self).wf(),
            final(self).cache == old(self).cache,
            final(self).repo.patients@ == old(self).repo.patients@,
            final(self).repo.tickets@ == old(self).repo.tickets@,
            match answer {
                Ok(r) => {
                    &&& r == ReferralUploadResponse {
                        status: DocumentStatus::Waiting,
                        created_at: now,
                    }
                    &&& has_intent(old(self).repo.intents@, visit_id)
                    &&& final(self).repo.documents@.len() == old(self).repo.documents@.len() + 1
                    &&& final(self).repo.documents@.drop_last() == old(self).repo.documents@
                    &&& ({
                        let d = final(self).repo.documents@.last();
                        let name = referral_name(
                            token@,
                            patient_id,
                            visit_id,
                            metadata.extension@,
                        );
                        &&& d.id == next_id(document_ids(old(self).repo.documents@))
                        &&& d.patients_id == patient_id
                        &&& d.visit_intent_id == visit_id
                        &&& d.file_name@ == name
                        &&& d.referral_document_url@ == referral_address(REFERRAL_BUCKET@, name)
                        &&& d.file_size == metadata.file_bytes@.len()
                        &&& d.status == DocumentStatus::Waiting
                        &&& d.created_at == now
                        &&& final(self).repo.intents@ == old(self).repo.intents@.update(
                            intent_slot(old(self).repo.intents@, visit_id),
                            crate::model::VisitIntent {
                                referral_document_id: Some(d.id),
                                ..old(self).repo.intents@[intent_slot(
                                    old(self).repo.intents@,
                                    visit_id,
                                )]
                            },
                        )
                    })
                },
                Err(AppError::NotFound(m)) => {
                    &&& !has_intent(old(self).repo.intents@, visit_id)
                    &&& final(self).same_rows(old(self))
                    &&& m@ == "Visit intent not found"@
                },
                Err(AppError::Internal(_)) => {
                    &&& has_intent(old(self).repo.intents@, visit_id)
                    &&& (next_id(document_ids(old(self).repo.documents@)) > i32::MAX
                        || metadata.file_bytes@.len() > i64::MAX)
                    &&& final(self).same_rows(old(self))
                },
                Err(_) => false,
            },
    {
        let name = referral_file_name(token, patient_id, visit_id, metadata.extension.as_str());
        let url = referral_url(REFERRAL_BUCKET, name.as_str());
        let recorded: Result<ReferralDocument, AppError> = self.repo.upload_referral_docs(
            name,
            visit_id,
            patient_id,
            &metadata.file_bytes,
            url,
            now,
        );
        match recorded {
            Ok(d) => {
                proof {
                    assert(self.repo.documents@.drop_last() =~= old(self).repo.documents@);
                }
                Ok(ReferralUploadResponse { status: d.status, created_at: d.created_at })
            },
            Err(e) => Err(e),
        }
    }
}

} // verus!
