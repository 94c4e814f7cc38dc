//! The broker's record of an admitted job: the descriptor fields together
//! with the notification sink bound to the job's subscription.

use vstd::prelude::*;

verus! {

/// One admitted job. It is created only after the encoder collaborator
/// accepts a validated descriptor, and it is owned by the registry from
/// admission until removal.
pub struct Encoding {
    /// The resource the job works on.
    pub file: String,
    /// Opaque configuration, passed through unexamined.
    pub opt: serde_json::Value,
    /// The notification channel bound to the job's subscription.
    pub sink: jsonrpc_pubsub::Sink,
}

impl Encoding {
    /// Binds the descriptor fields and the freshly created sink into one job
    /// record: the record keeps exactly the sink it was given, so the job
    /// registered under an identifier pushes through the sink bound to it.
    pub fn new(file: String, opt: serde_json::Value, sink: jsonrpc_pubsub::Sink) -> (e: Encoding)
        ensures
            e.file == file,
            e.opt == opt,
            e.sink == sink,
    {
        Encoding { file: file, opt: opt, sink: sink }
    }

    /// Pushes one progress payload to the subscriber. Delivery is
    /// best-effort: `false` reports an undeliverable payload and is not a
    /// fault.
    ///
    /// Relies on jsonrpc_pubsub::Sink::notify: it queues the payload on the
    /// subscriber's channel and fails exactly when the receiving end of the
    /// channel is gone; it never blocks and never panics.
    #[verifier::external_body]
    pub fn update(&self, data: serde_json::Map<String, serde_json::Value>) -> (delivered: bool) {
        match self.sink.notify(jsonrpc_core::Params::Map(data)) {
            Ok(_) => true,
            Err(_) => false,
        }
    }

}

} // verus!
