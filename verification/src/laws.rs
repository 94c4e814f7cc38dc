//! The broker's general guarantees, proved once and for all over the
//! transition relations that the operations' contracts establish. The
//! hypotheses of each proof function are exactly what `start`, `abort` and
//! `notify` give their callers, so the guarantees hold of every run.

use vstd::prelude::*;

use crate::descriptor::JobDescriptor;
use crate::middleware::abort_outcome;
use crate::middleware::counter_monotone;
use crate::middleware::push_resolution;
use crate::middleware::start_outcome;
use crate::middleware::Middleware;
use crate::PushOutcome;
use crate::RejectionError;

verus! {

/// A `start` call, whatever its outcome, never moves the identifier
/// counter backwards.
pub proof fn lemma_start_counter_monotone<R>(
    pre: Middleware<R>,
    post: Middleware<R>,
    descriptor: JobDescriptor,
    r: Result<u64, RejectionError>,
)
    requires
        start_outcome(pre, post, descriptor, r),
    ensures
        counter_monotone(pre, post),
{
}

/// An `abort` call never moves the identifier counter at all.
pub proof fn lemma_abort_counter_monotone<R>(
    pre: Middleware<R>,
    post: Middleware<R>,
    id: u64,
    found: bool,
)
    requires
        abort_outcome(pre, post, id, found),
    ensures
        counter_monotone(pre, post),
{
}

/// Counter monotonicity composes, so it holds across any run of operations.
pub proof fn lemma_counter_monotone_trans<R>(
    a: Middleware<R>,
    b: Middleware<R>,
    c: Middleware<R>,
)
    requires
        counter_monotone(a, b),
        counter_monotone(b, c),
    ensures
        counter_monotone(a, c),
{
}

/// Within one broker lifetime, the identifiers returned by two successful
/// `start` calls are pairwise distinct: the second call starts from a state
/// the first call's post-state evolved into, and the counter between them
/// never went backwards.
pub proof fn lemma_issued_ids_distinct<R>(
    pre1: Middleware<R>,
    post1: Middleware<R>,
    d1: JobDescriptor,
    id1: u64,
    pre2: Middleware<R>,
    post2: Middleware<R>,
    d2: JobDescriptor,
    id2: u64,
)
    requires
        start_outcome(pre1, post1, d1, Ok(id1)),
        counter_monotone(post1, pre2),
        start_outcome(pre2, post2, d2, Ok(id2)),
    ensures
        id1 != id2,
{
    assert(id1 < post1.next_sub_id());
}

/// An empty or malformed descriptor is always turned away with a
/// rejection, and neither the registry nor its size nor the identifier
/// counter changes: no identifier is wasted on invalid input.
pub proof fn lemma_invalid_start_changes_nothing<R>(
    pre: Middleware<R>,
    post: Middleware<R>,
    descriptor: JobDescriptor,
    r: Result<u64, RejectionError>,
)
    requires
        start_outcome(pre, post, descriptor, r),
        !descriptor.spec_valid(),
    ensures
        r == Err::<u64, RejectionError>(RejectionError::InvalidParameters),
        post.reg() == pre.reg(),
        post.reg().len() == pre.reg().len(),
        post.next_sub_id() == pre.next_sub_id(),
{
}

/// After a successful `start` returning `id`, the registry holds exactly
/// one new entry, the one for `id`; the first `abort(id)` reports `true`
/// and takes the registry back to what it was; a second `abort(id)`
/// reports `false` and changes nothing.
pub proof fn lemma_start_abort_abort<R>(
    pre: Middleware<R>,
    post: Middleware<R>,
    descriptor: JobDescriptor,
    id: u64,
    after1: Middleware<R>,
    found1: bool,
    after2: Middleware<R>,
    found2: bool,
)
    requires
        pre.wf(),
        start_outcome(pre, post, descriptor, Ok(id)),
        abort_outcome(post, after1, id, found1),
        abort_outcome(after1, after2, id, found2),
    ensures
        !pre.reg().contains_key(id),
        post.reg().contains_key(id),
        post.reg().len() == pre.reg().len() + 1,
        found1,
        !after1.reg().contains_key(id),
        after1.reg() == pre.reg(),
        !found2,
        after2.reg() == pre.reg(),
{
    assert(!pre.reg().contains_key(id));
    assert(post.reg().dom() =~= pre.reg().dom().insert(id));
    vstd::set::axiom_set_insert_len(pre.reg().dom(), id);
    assert(after1.reg() =~= pre.reg());
    assert(after2.reg() =~= pre.reg());
}

/// Two successful starts in direct succession return distinct identifiers,
/// leave both jobs registered at once, and grow the registry by exactly
/// two: no admission is lost and no identifier is handed out twice.
pub proof fn lemma_two_starts_both_registered<R>(
    s0: Middleware<R>,
    s1: Middleware<R>,
    d1: JobDescriptor,
    id1: u64,
    s2: Middleware<R>,
    d2: JobDescriptor,
    id2: u64,
)
    requires
        s0.wf(),
        s1.wf(),
        start_outcome(s0, s1, d1, Ok(id1)),
        start_outcome(s1, s2, d2, Ok(id2)),
    ensures
        id1 != id2,
        s2.reg().contains_key(id1),
        s2.reg().contains_key(id2),
        s2.reg().len() == s0.reg().len() + 2,
{
    assert(!s0.reg().contains_key(id1));
    assert(s1.reg().dom() =~= s0.reg().dom().insert(id1));
    vstd::set::axiom_set_insert_len(s0.reg().dom(), id1);
    assert(!s1.reg().contains_key(id2));
    assert(s2.reg().dom() =~= s1.reg().dom().insert(id2));
    vstd::set::axiom_set_insert_len(s1.reg().dom(), id2);
}

/// A push towards a subscription that an `abort` has removed resolves to
/// `Undeliverable`; it cannot fault and cannot resurrect the job, since
/// `notify` leaves the broker untouched.
pub proof fn lemma_push_after_abort_undeliverable<R>(
    pre: Middleware<R>,
    post: Middleware<R>,
    id: u64,
    found: bool,
    outcome: PushOutcome,
)
    requires
        abort_outcome(pre, post, id, found),
        push_resolution(post, id, outcome),
    ensures
        outcome == PushOutcome::Undeliverable,
{
    assert(!post.reg().contains_key(id));
}

/// One step of the broker: some `start`, some `abort`, or an operation
/// that leaves the state alone (`notify`, `auth_login`, reads).
pub open spec fn broker_step<R>(pre: Middleware<R>, post: Middleware<R>) -> bool {
    ||| exists|d: JobDescriptor, r: Result<u64, RejectionError>|
        #[trigger] start_outcome(pre, post, d, r)
    ||| exists|id: u64, found: bool| #[trigger] abort_outcome(pre, post, id, found)
    ||| post == pre
}

/// One step keeps a spent, unregistered identifier out of the registry:
/// every insertion uses the counter's current value, which lies strictly
/// above every identifier spent earlier.
pub proof fn lemma_step_keeps_spent_id_out<R>(
    pre: Middleware<R>,
    post: Middleware<R>,
    id: u64,
)
    requires
        broker_step(pre, post),
        !pre.reg().contains_key(id),
        id < pre.next_sub_id(),
    ensures
        !post.reg().contains_key(id),
        id < post.next_sub_id(),
{
    if exists|d: JobDescriptor, r: Result<u64, RejectionError>|
        #[trigger] start_outcome(pre, post, d, r) {
        let (d, r) = choose|d: JobDescriptor, r: Result<u64, RejectionError>|
            #[trigger] start_outcome(pre, post, d, r);
        if d.spec_valid() {
            match r {
                Ok(fresh) => {
                    assert(fresh == pre.next_sub_id());
                    assert(post.reg() == pre.reg().insert(fresh, post.reg()[fresh]));
                },
                Err(_) => {},
            }
        }
    } else if exists|aid: u64, found: bool| #[trigger] abort_outcome(pre, post, aid, found) {
        let (aid, found) = choose|aid: u64, found: bool|
            #[trigger] abort_outcome(pre, post, aid, found);
        assert(post.reg() == pre.reg().remove(aid));
    }
}

/// Once an identifier has been spent and is not (or no longer) registered,
/// no later state of the same broker ever registers it again: a rejected
/// admission's identifier never becomes a valid `abort` target, and an
/// aborted job never comes back under its old identifier.
pub proof fn lemma_spent_id_never_reappears<R>(trace: Seq<Middleware<R>>, id: u64)
    requires
        trace.len() > 0,
        forall|i: int| 0 <= i < trace.len() - 1 ==> broker_step(
            #[trigger] trace[i],
            trace[i + 1],
        ),
        !trace[0].reg().contains_key(id),
        id < trace[0].next_sub_id(),
    ensures
        forall|i: int| 0 <= i < trace.len() ==> !(#[trigger] trace[i].reg().contains_key(id)),
    decreases trace.len(),
{
    if trace.len() > 1 {
        lemma_step_keeps_spent_id_out(trace[0], trace[1], id);
        let tail = trace.subrange(1, trace.len() as int);
        assert forall|i: int| 0 <= i < tail.len() - 1 implies #[trigger] broker_step(
            tail[i],
            tail[i + 1],
        ) by {
            assert(broker_step(trace[i + 1], trace[i + 2]));
            assert(tail[i] == trace[i + 1]);
            assert(tail[i + 1] == trace[i + 2]);
        }
        lemma_spent_id_never_reappears(tail, id);
        assert forall|i: int| 0 <= i < trace.len() implies !(#[trigger] trace[i].reg().contains_key(
            id,
        )) by {
            if i > 0 {
                assert(trace[i] == tail[i - 1]);
                assert(!tail[i - 1].reg().contains_key(id));
            }
        }
    }
}

} // verus!
