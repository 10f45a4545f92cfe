use vstd::prelude::*;
use crate::cache::{live, CachedModel, Stored, ViewCache};
use crate::dto::TriageQueueResponse;
use crate::error::AppError;
use crate::model::{CreateTriageRequest, Patient, QueueTicket, TicketStatus, VisitType};
use crate::repo::{
    count_of_type, has_ticket, holds_ticket, id_has_slot, next_id, next_id_keeps_order,
    patient_ids, patient_slot, registered, ticket_slot, TriageRepo,
};
use crate::service::{queue_key, TriageService, CACHE_TTL_SECONDS};

verus! {

/// The numbers of the tickets of a queue type, in the order of creation.
pub open spec fn numbers_of_type(tickets: Seq<QueueTicket>, vt: VisitType) -> Seq<int>
    decreases tickets.len(),
{
    if tickets.len() == 0 {
        Seq::empty()
    } else if tickets.last().queue_type == vt {
        numbers_of_type(tickets.drop_last(), vt).push(tickets.last().queue_number as int)
    } else {
        numbers_of_type(tickets.drop_last(), vt)
    }
}

/// The numbers from 1 to `n`.
pub open spec fn one_to(n: nat) -> Seq<int> {
    Seq::new(n, |k: int| k + 1)
}

proof fn prefix_numbers_run_from_one(repo: TriageRepo, vt: VisitType, k: int)
    requires
        repo.wf(),
        0 <= k <= repo.tickets@.len(),
    ensures
        numbers_of_type(repo.tickets@.take(k), vt) == one_to(
            count_of_type(repo.tickets@.take(k), vt),
        ),
    decreases k,
{
    let prefix = repo.tickets@.take(k);
    if k == 0 {
        assert(numbers_of_type(prefix, vt) =~= one_to(0));
    } else {
        assert(prefix.drop_last() =~= repo.tickets@.take(k - 1));
        prefix_numbers_run_from_one(repo, vt, k - 1);
        assert(prefix.last() == repo.tickets@[k - 1]);
        assert(numbers_of_type(prefix, vt) =~= one_to(count_of_type(prefix, vt)));
    }
}

/// Registration is idempotent on the national identity number: once a
/// request has registered or found a patient, any later request with the
/// same number is answered with that same patient, whatever else it says, and
/// writes nothing.
pub proof fn registration_is_idempotent(
    before: TriageRepo,
    between: TriageRepo,
    after: TriageRepo,
    first: CreateTriageRequest,
    second: CreateTriageRequest,
    earlier: i64,
    later: i64,
    patient: Patient,
    again: Result<Patient, AppError>,
)
    requires
        before.wf(),
        between.wf(),
        before.registers(&between, &first, earlier, Ok(patient)),
        between.registers(&after, &second, later, again),
        first.national_id@ == second.national_id@,
    ensures
        again == Ok::<Patient, AppError>(patient),
        after.patients@ == between.patients@,
{
    let at = if registered(before.patients@, first.national_id@) {
        id_has_slot(patient_ids(before.patients@), patient.id);
        patient_slot(before.patients@, patient.id)
    } else {
        before.patients@.len() as int
    };
    assert(between.patients@[at] == patient);
    assert(between.patients@[at].national_id@ == second.national_id@);
    assert(registered(between.patients@, second.national_id@));
    match again {
        Ok(found) => {
            id_has_slot(patient_ids(between.patients@), found.id);
            let there = patient_slot(between.patients@, found.id);
            if there < at {
                assert(between.patients@[there].national_id@ != between.patients@[at].national_id@);
            } else if at < there {
                assert(between.patients@[at].national_id@ != between.patients@[there].national_id@);
            }
        },
        Err(_) => {},
    }
}

/// A request whose national identity number is not yet registered creates
/// the patient, as long as an identifier is left: exactly one row is added,
/// it carries what the request says, and its identifier is none of the
/// earlier ones.
pub proof fn unregistered_patient_is_created(
    pre: TriageRepo,
    post: TriageRepo,
    payload: CreateTriageRequest,
    now: i64,
    found: Result<Patient, AppError>,
)
    requires
        pre.wf(),
        pre.registers(&post, &payload, now, found),
        !registered(pre.patients@, payload.national_id@),
        next_id(patient_ids(pre.patients@)) <= i32::MAX,
    ensures
        found is Ok,
        post.patients@ == pre.patients@.push(found->Ok_0),
        found->Ok_0.national_id == payload.national_id,
        found->Ok_0.name == payload.name,
        found->Ok_0.date_of_birth == payload.date_of_birth,
        found->Ok_0.bpjs_number == payload.bpjs_number,
        found->Ok_0.gender == payload.gender,
        found->Ok_0.blood_type == payload.blood_type,
        forall|i: int| 0 <= i < pre.patients@.len() ==> (#[trigger] pre.patients@[i]).id != found->Ok_0.id,
{
    let ids = patient_ids(pre.patients@);
    next_id_keeps_order(ids, found->Ok_0.id);
    assert forall|i: int| 0 <= i < pre.patients@.len() implies (#[trigger] pre.patients@[i]).id
        != found->Ok_0.id by {
        assert(ids[i] == pre.patients@[i].id);
    }
}

/// Tickets issued one after another in a queue type carry the numbers 1, 2,
/// 3 and so on in the order of creation, with no gap and no repeat, whatever
/// became of the tickets since and whatever was issued in other queue types.
pub proof fn numbers_run_from_one(repo: TriageRepo, vt: VisitType)
    requires
        repo.wf(),
    ensures
        numbers_of_type(repo.tickets@, vt) == one_to(count_of_type(repo.tickets@, vt)),
{
    prefix_numbers_run_from_one(repo, vt, repo.tickets@.len() as int);
    assert(repo.tickets@.take(repo.tickets@.len() as int) =~= repo.tickets@);
}

/// No two tickets of a queue type share a number. Every operation takes the
/// store by exclusive reference, so tickets are issued one at a time and this
/// holds however many callers there are.
pub proof fn queue_numbers_are_distinct(repo: TriageRepo, i: int, j: int)
    requires
        repo.wf(),
        0 <= i < repo.tickets@.len(),
        0 <= j < repo.tickets@.len(),
        i != j,
        repo.tickets@[i].queue_type == repo.tickets@[j].queue_type,
    ensures
        repo.tickets@[i].queue_number != repo.tickets@[j].queue_number,
{
    if i < j {
        repo.numbers_increase(i, j);
    } else {
        repo.numbers_increase(j, i);
    }
}

/// Calling a patient succeeds exactly when a ticket with the number exists in
/// the queue type and waits; afterwards it is CALLED. A refused call leaves every
/// ticket as it was.
pub proof fn call_is_legal(
    pre: TriageRepo,
    post: TriageRepo,
    n: i32,
    vt: VisitType,
    now: i64,
    called: Result<QueueTicket, AppError>,
)
    requires
        pre.wf(),
        pre.calls(&post, n, vt, now, called),
    ensures
        called is Ok <==> exists|i: int|
            holds_ticket(pre.tickets@, i, vt, n) && pre.tickets@[i].status
                == TicketStatus::Waiting,
        called is Ok ==> called->Ok_0.status == TicketStatus::Called && post.tickets@[ticket_slot(
            pre.tickets@,
            called->Ok_0.id,
        )] == called->Ok_0,
        called is Err ==> called->Err_0 is NotFound && post.tickets@ == pre.tickets@,
{
    match called {
        Ok(t) => {
            assert(holds_ticket(pre.tickets@, ticket_slot(pre.tickets@, t.id), vt, n));
        },
        Err(_) => {},
    }
}

/// Completing triage succeeds exactly when a ticket with the number exists in
/// the queue type and is being called; afterwards it is DONE. A refused completion
/// leaves every ticket as it was, and is a BadRequest when the ticket exists
/// and NotFound when it does not.
pub proof fn completion_is_legal(
    pre: TriageRepo,
    post: TriageRepo,
    n: i32,
    vt: VisitType,
    now: i64,
    completed: Result<QueueTicket, AppError>,
)
    requires
        pre.wf(),
        pre.completes(&post, n, vt, now, completed),
    ensures
        completed is Ok <==> exists|i: int|
            holds_ticket(pre.tickets@, i, vt, n) && pre.tickets@[i].status
                == TicketStatus::Called,
        completed is Ok ==> completed->Ok_0.status == TicketStatus::Done && post.tickets@[ticket_slot(
            pre.tickets@,
            completed->Ok_0.id,
        )] == completed->Ok_0,
        completed is Err ==> post.tickets@ == pre.tickets@,
        completed is Err ==> (completed->Err_0 is BadRequest <==> has_ticket(pre.tickets@, vt, n)),
        completed is Err ==> (completed->Err_0 is NotFound <==> !has_ticket(pre.tickets@, vt, n)),
{
    match completed {
        Ok(t) => {
            assert(holds_ticket(pre.tickets@, ticket_slot(pre.tickets@, t.id), vt, n));
        },
        Err(_) => {},
    }
}

/// Cancelling succeeds exactly when a ticket with the number exists in the
/// queue type and was neither called nor is done; afterwards it is CANCELLED. A
/// refused cancellation leaves every ticket as it was, and is a BadRequest
/// when the ticket exists and NotFound when it does not.
pub proof fn cancellation_is_legal(
    pre: TriageRepo,
    post: TriageRepo,
    n: i32,
    vt: VisitType,
    cancelled: Result<QueueTicket, AppError>,
)
    requires
        pre.wf(),
        pre.cancels(&post, n, vt, cancelled),
    ensures
        cancelled is Ok <==> exists|i: int|
            holds_ticket(pre.tickets@, i, vt, n) && pre.tickets@[i].status != TicketStatus::Called
                && pre.tickets@[i].status != TicketStatus::Done,
        cancelled is Ok ==> cancelled->Ok_0.status == TicketStatus::Cancelled && post.tickets@[ticket_slot(
            pre.tickets@,
            cancelled->Ok_0.id,
        )] == cancelled->Ok_0,
        cancelled is Err ==> post.tickets@ == pre.tickets@,
        cancelled is Err ==> (cancelled->Err_0 is BadRequest <==> has_ticket(pre.tickets@, vt, n)),
        cancelled is Err ==> (cancelled->Err_0 is NotFound <==> !has_ticket(pre.tickets@, vt, n)),
{
    match cancelled {
        Ok(t) => {
            assert(holds_ticket(pre.tickets@, ticket_slot(pre.tickets@, t.id), vt, n));
        },
        Err(_) => {},
    }
}

/// A queue listing holds only waiting tickets of its type, every one of them
/// once, and the older before the newer.
pub proof fn serving_order_is_fifo(repo: TriageRepo, vt: VisitType, order: Seq<int>, a: int, b: int)
    requires
        repo.wf(),
        repo.serves(vt, order),
        0 <= a < b < order.len(),
    ensures
        repo.listing(order)[a].status == TicketStatus::Waiting,
        repo.tickets@[order[a]].queue_type == vt,
        repo.listing(order)[a].created_at <= repo.listing(order)[b].created_at,
        order[a] != order[b],
        repo.listing(order)[a].queue_number != repo.listing(order)[b].queue_number,
{
    assert(repo.waits_at(order[a], vt));
    assert(repo.waits_at(order[b], vt));
    assert(repo.served_before(order[a], order[b]));
    queue_numbers_are_distinct(repo, order[a], order[b]);
}

proof fn orders_agree_upto(repo: TriageRepo, vt: VisitType, a: Seq<int>, b: Seq<int>, k: int)
    requires
        repo.serves(vt, a),
        repo.serves(vt, b),
        0 <= k <= a.len(),
    ensures
        k <= b.len(),
        forall|i: int| 0 <= i < k ==> a[i] == b[i],
    decreases k,
{
    if k > 0 {
        orders_agree_upto(repo, vt, a, b, k - 1);
        let x = a[k - 1];
        assert(repo.waits_at(x, vt));
        assert(b.contains(x));
        let m = choose|m: int| 0 <= m < b.len() && b[m] == x;
        if m < k - 1 {
            assert(a[m] == b[m]);
            assert(repo.served_before(a[m], a[k - 1]));
        } else if m > k - 1 {
            let y = b[k - 1];
            assert(repo.waits_at(y, vt));
            assert(a.contains(y));
            let n = choose|n: int| 0 <= n < a.len() && a[n] == y;
            assert(repo.served_before(b[k - 1], b[m]));
            if n < k - 1 {
                assert(a[n] == b[n]);
                assert(repo.served_before(b[n], b[k - 1]));
            } else if n > k - 1 {
                assert(repo.served_before(a[k - 1], a[n]));
            }
        }
    }
}

/// A queue type has one serving order only: the listing of a queue is fully
/// determined by the store.
pub proof fn serving_order_is_unique(repo: TriageRepo, vt: VisitType, a: Seq<int>, b: Seq<int>)
    requires
        repo.serves(vt, a),
        repo.serves(vt, b),
    ensures
        a == b,
        repo.listing(a) == repo.listing(b),
{
    orders_agree_upto(repo, vt, a, b, a.len() as int);
    orders_agree_upto(repo, vt, b, a, b.len() as int);
    assert(a =~= b);
}

/// A cached view is served for as long as its time to live and not a moment
/// longer: a read fewer than `ttl_seconds` seconds after the write is served
/// the view, and any later read is served nothing.
pub proof fn cached_view_expires(cache: ViewCache, key: Seq<char>, entry: Stored, now: i64)
    requires
        cache.stored(key) == Some(entry),
    ensures
        now - entry.written_at < entry.ttl_seconds * 1_000_000 ==> cache.served(key, now) == Some(
            entry.value,
        ),
        now - entry.written_at >= entry.ttl_seconds * 1_000_000 ==> cache.served(key, now)
            is None,
{
}

/// A queue listing that was cached 300 seconds ago or earlier is not served
/// any more: the next listing is read from the store and cached in its
/// place.
pub proof fn expired_listing_is_rebuilt(
    pre: TriageService,
    post: TriageService,
    vt: VisitType,
    items: Seq<crate::dto::TriageQueueItem>,
    written_at: i64,
    now: i64,
    answer: TriageQueueResponse,
)
    requires
        pre.cache.stored(queue_key(vt)) == Some(
            Stored {
                value: CachedModel::Queue(items),
                written_at,
                ttl_seconds: CACHE_TTL_SECONDS,
            },
        ),
        now - written_at >= 300 * 1_000_000,
        pre.lists(&post, vt, now, answer),
    ensures
        exists|order: Seq<int>| #[trigger]
            pre.repo.serves(vt, order) && answer.data@ == pre.repo.listing(order),
        post.cache.stored(queue_key(vt)) == Some(
            Stored {
                value: CachedModel::Queue(answer.data@),
                written_at: now,
                ttl_seconds: CACHE_TTL_SECONDS,
            },
        ),
{
    assert(!live(written_at, CACHE_TTL_SECONDS, now));
}

/// While a queue listing is live in the cache it is what is answered, and
/// neither the store nor the cache is written.
pub proof fn live_listing_is_served(
    pre: TriageService,
    post: TriageService,
    vt: VisitType,
    items: Seq<crate::dto::TriageQueueItem>,
    written_at: i64,
    now: i64,
    answer: TriageQueueResponse,
)
    requires
        pre.cache.stored(queue_key(vt)) == Some(
            Stored {
                value: CachedModel::Queue(items),
                written_at,
                ttl_seconds: CACHE_TTL_SECONDS,
            },
        ),
        now - written_at < 300 * 1_000_000,
        pre.lists(&post, vt, now, answer),
    ensures
        answer.data@ == items,
        post.untouched(&pre),
{
    assert(live(written_at, CACHE_TTL_SECONDS, now));
}

} // verus!
