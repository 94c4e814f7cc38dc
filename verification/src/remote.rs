//! Trusted boundary to the transport collaborator's crates: the opaque JSON
//! value type, the pub/sub notification sink, and the subscriber handle that
//! a pending subscription request arrives as.

use vstd::prelude::*;

verus! {

#[verifier::external_type_specification]
#[verifier::external_body]
pub struct ExValue(serde_json::Value);

#[verifier::external_type_specification]
#[verifier::external_body]
#[verifier::reject_recursive_types(K)]
#[verifier::reject_recursive_types(V)]
pub struct ExJsonMap<K, V>(serde_json::Map<K, V>);

#[verifier::external_type_specification]
#[verifier::external_body]
pub struct ExSink(jsonrpc_pubsub::Sink);

#[verifier::external_type_specification]
#[verifier::external_body]
pub struct ExSubscriber(jsonrpc_pubsub::Subscriber);

/// Relies on jsonrpc_pubsub::Subscriber::assign_id: consumes the subscriber,
/// binds the given numeric subscription id to it and hands back the sink for
/// that subscription; it fails exactly when the request already terminated,
/// in which case no sink exists.
#[verifier::external_body]
pub(crate) fn assign_numeric_id(
    subscriber: jsonrpc_pubsub::Subscriber,
    id: u64,
) -> (r: Option<jsonrpc_pubsub::Sink>) {
    subscriber.assign_id(jsonrpc_pubsub::SubscriptionId::Number(id)).ok()
}

/// Relies on jsonrpc_pubsub::Subscriber::reject: consumes the subscriber and
/// answers the pending request with a parse error carrying the given message;
/// a failure means the request already terminated, which leaves nothing to do.
#[verifier::external_body]
pub(crate) fn reject_with_parse_error(subscriber: jsonrpc_pubsub::Subscriber, message: String) {
    let _ = subscriber.reject(jsonrpc_core::Error {
        code: jsonrpc_core::ErrorCode::ParseError,
        message,
        data: None,
    });
}

} // verus!
