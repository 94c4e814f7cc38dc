//! The subscription broker: identity-gated job admission, the subscription
//! registry, and the cancellation protocol.

use std::collections::HashMap;
use vstd::prelude::*;

use crate::descriptor::JobDescriptor;
use crate::encoding::Encoding;
use crate::remote::assign_numeric_id;
use crate::remote::reject_with_parse_error;
use crate::AuthError;
use crate::EncoderError;
use crate::PushOutcome;
use crate::RejectionError;

verus! {

broadcast use vstd::std_specs::hash::group_hash_axioms;

/// The pluggable identity and execution collaborator. Implementations are
/// injected at broker construction; the broker delegates credential checks
/// to `auth_login` and job admission to `encode`, and itself decides
/// nothing about either.
pub trait Rpc: Sized {
    /// Builds the collaborator that a fresh broker will delegate to.
    fn new() -> Self;

    /// Checks the credentials; a token is produced only on success.
    fn auth_login(&self, user: String, pass: String) -> Result<serde_json::Value, AuthError>;

    /// Decides whether the job actually starts; on acceptance the encoder
    /// drives the job and pushes progress through the job's sink.
    fn encode(&self, token: serde_json::Value, encoding: &Encoding) -> Result<(), EncoderError>;
}

/// The broker instance: the one registry of active jobs, the identifier
/// counter, and the injected collaborator.
pub struct Middleware<R> {
    encodings: HashMap<u64, Encoding>,
    next_id: u64,
    r: R,
}

impl<R> Middleware<R> {
    /// The registry: the mapping from subscription identifier to active job.
    pub closed spec fn reg(self) -> Map<u64, Encoding> {
        self.encodings@
    }

    /// The next identifier this broker will mint. Every identifier ever
    /// issued is below it, which is what keeps issued identifiers unique.
    pub closed spec fn next_sub_id(self) -> u64 {
        self.next_id
    }

    /// The broker's invariant: the registry holds finitely many jobs, and
    /// every registered identifier was minted earlier, so it lies below the
    /// counter.
    pub open spec fn wf(self) -> bool {
        &&& self.reg().dom().finite()
        &&& forall|k: u64| #[trigger] self.reg().contains_key(k) ==> k < self.next_sub_id()
    }
}

/// What one `start` call does to the broker, for every decision the outside
/// collaborators can take. An invalid descriptor is turned away before any
/// identifier is allocated; on a valid one the identifier is spent whether
/// or not the job is admitted, and the registry gains exactly the one new
/// entry exactly when the caller gets `Ok`.
pub open spec fn start_outcome<R>(
    pre: Middleware<R>,
    post: Middleware<R>,
    descriptor: JobDescriptor,
    r: Result<u64, RejectionError>,
) -> bool {
    if !descriptor.spec_valid() {
        &&& r == Err::<u64, RejectionError>(RejectionError::InvalidParameters)
        &&& post.reg() == pre.reg()
        &&& post.next_sub_id() == pre.next_sub_id()
    } else {
        &&& post.next_sub_id() == pre.next_sub_id() + 1
        &&& match r {
            Ok(id) => {
                &&& id == pre.next_sub_id()
                &&& post.reg().contains_key(id)
                &&& post.reg() == pre.reg().insert(id, post.reg()[id])
                &&& post.reg()[id].file == descriptor.file.unwrap()
                &&& post.reg()[id].opt == descriptor.opt.unwrap()
            },
            Err(e) => {
                &&& post.reg() == pre.reg()
                &&& (e == RejectionError::SinkUnavailable || e == RejectionError::EncoderDeclined)
            },
        }
    }
}

/// What one `abort` call does to the broker: the entry for `id` is gone
/// afterwards, and the caller learns exactly whether there was one.
pub open spec fn abort_outcome<R>(
    pre: Middleware<R>,
    post: Middleware<R>,
    id: u64,
    found: bool,
) -> bool {
    &&& found == pre.reg().contains_key(id)
    &&& post.reg() == pre.reg().remove(id)
    &&& post.next_sub_id() == pre.next_sub_id()
}

/// What a push through the broker promises: for a subscription that is not
/// registered (never started, completed, or cancelled) the payload is
/// reported undeliverable, without fault and without touching the registry.
pub open spec fn push_resolution<R>(b: Middleware<R>, id: u64, outcome: PushOutcome) -> bool {
    !b.reg().contains_key(id) ==> outcome == PushOutcome::Undeliverable
}

/// The identifier counter never moves backwards between two broker states;
/// every operation's contract maintains this.
pub open spec fn counter_monotone<R>(pre: Middleware<R>, post: Middleware<R>) -> bool {
    post.next_sub_id() >= pre.next_sub_id()
}

impl<R: Rpc> Middleware<R> {
    /// A fresh broker: empty registry, counter at its first identifier, and
    /// a newly built collaborator.
    pub fn new() -> (m: Middleware<R>)
        ensures
            m.wf(),
            m.reg() == Map::<u64, Encoding>::empty(),
            m.next_sub_id() == 1,
    {
        Middleware { encodings: HashMap::new(), next_id: 1, r: R::new() }
    }

    /// Delegates a login to the identity collaborator. The broker performs
    /// no retry and no caching, and a failed authentication never touches
    /// the registry (this call does not touch it at all).
    pub fn auth_login(&self, user: String, pass: String) -> (r: Result<
        serde_json::Value,
        AuthError,
    >) {
        self.r.auth_login(user, pass)
    }

    /// Admits one job: validates the descriptor, mints a fresh subscription
    /// identifier, binds a sink to it, asks the encoder collaborator, and
    /// commits the registry entry only on acceptance. The identifier is
    /// never reused, even when the sink binding or the encoder fails.
    pub fn start(
        &mut self,
        token: serde_json::Value,
        descriptor: JobDescriptor,
        subscriber: jsonrpc_pubsub::Subscriber,
    ) -> (r: Result<u64, RejectionError>)
        requires
            old(self).wf(),
            old(self).next_sub_id() < u64::MAX,
        ensures
            final(self).wf(),
            start_outcome(*old(self), *final(self), descriptor, r),
    {
        if !descriptor.is_valid() {
            reject_with_parse_error(subscriber, "Invalid parameters.".to_string());
            return Err(RejectionError::InvalidParameters);
        }
        let file = descriptor.file.unwrap();
        let opt = descriptor.opt.unwrap();
        let id = self.next_id;
        self.next_id = id + 1;
        proof {
            // Spending the identifier keeps the invariant: the registry is
            // untouched and every registered key is below the old counter.
            assert(self.reg() == old(self).reg());
            assert(self.wf());
        }
        match assign_numeric_id(subscriber, id) {
            None => Err(RejectionError::SinkUnavailable),
            Some(sink) => {
                let encoding = Encoding::new(file, opt, sink);
                let accepted = match self.r.encode(token, &encoding) {
                    Ok(_) => true,
                    Err(_) => false,
                };
                self.commit_admission(id, encoding, accepted)
            },
        }
    }

    /// The commit step of admission, for each decision the encoder can have
    /// taken: an accepted job is registered under its identifier and the
    /// identifier returned; a declined one leaves the registry untouched and
    /// its sink is discarded with the job record.
    pub fn commit_admission(&mut self, id: u64, encoding: Encoding, accepted: bool) -> (r: Result<
        u64,
        RejectionError,
    >)
        requires
            old(self).wf(),
            id < old(self).next_sub_id(),
            !old(self).reg().contains_key(id),
        ensures
            final(self).wf(),
            final(self).next_sub_id() == old(self).next_sub_id(),
            accepted ==> r == Ok::<u64, RejectionError>(id) && final(self).reg() == old(
                self,
            ).reg().insert(id, encoding),
            !accepted ==> r == Err::<u64, RejectionError>(RejectionError::EncoderDeclined)
                && final(self).reg() == old(self).reg(),
    {
        if accepted {
            self.encodings.insert(id, encoding);
            Ok(id)
        } else {
            Err(RejectionError::EncoderDeclined)
        }
    }

    /// Cancels the job under `id`: removes its registry entry, which is the
    /// stop signal the encoder can observe. Idempotent: once the entry is
    /// gone, further calls return `false` and change nothing.
    pub fn abort(&mut self, id: u64) -> (found: bool)
        requires
            old(self).wf(),
        ensures
            final(self).wf(),
            abort_outcome(*old(self), *final(self), id, found),
    {
        match self.encodings.remove(&id) {
            Some(_) => true,
            None => false,
        }
    }

    /// Pushes one progress payload towards the subscriber of `id`. For an
    /// unregistered identifier the payload is undeliverable; for a
    /// registered one the outcome is whatever the subscriber's channel
    /// reports. Never faults the caller and never touches the registry.
    pub fn notify(
        &self,
        id: u64,
        data: serde_json::Map<String, serde_json::Value>,
    ) -> (outcome: PushOutcome)
        ensures
            push_resolution(*self, id, outcome),
    {
        match self.encodings.get(&id) {
            Some(encoding) => {
                if encoding.update(data) {
                    PushOutcome::Delivered
                } else {
                    PushOutcome::Undeliverable
                }
            },
            None => PushOutcome::Undeliverable,
        }
    }

    /// How many jobs are active right now.
    pub fn registry_len(&self) -> (n: usize)
        ensures
            n == self.reg().len(),
    {
        self.encodings.len()
    }

    /// The identifier the next admission will try to take. It only ever
    /// grows; a caller can check it is below the counter's ceiling before
    /// asking for a start.
    pub fn next_subscription_id(&self) -> (n: u64)
        ensures
            n == self.next_sub_id(),
    {
        self.next_id
    }

    /// Whether `id` names an active job: `true` means registered, `false`
    /// is all a caller can learn of "never started", "completed" and
    /// "cancelled".
    pub fn is_active(&self, id: u64) -> (b: bool)
        ensures
            b == self.reg().contains_key(id),
    {
        self.encodings.contains_key(&id)
    }
}

} // verus!
