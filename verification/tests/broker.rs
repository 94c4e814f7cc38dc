use encoding_broker::descriptor::JobDescriptor;
use encoding_broker::encoding::Encoding;
use encoding_broker::middleware::Middleware;
use encoding_broker::middleware::Rpc;
use encoding_broker::AuthError;
use encoding_broker::EncoderError;
use encoding_broker::PushOutcome;
use encoding_broker::RejectionError;
use jsonrpc_pubsub::Subscriber;

struct AcceptingRpc;

impl Rpc for AcceptingRpc {
    fn new() -> Self {
        AcceptingRpc
    }
    fn auth_login(&self, _user: String, _pass: String) -> Result<serde_json::Value, AuthError> {
        Ok(serde_json::Value::String("ok".to_string()))
    }
    fn encode(&self, _token: serde_json::Value, _encoding: &Encoding) -> Result<(), EncoderError> {
        Ok(())
    }
}

struct DecliningRpc;

impl Rpc for DecliningRpc {
    fn new() -> Self {
        DecliningRpc
    }
    fn auth_login(&self, _user: String, _pass: String) -> Result<serde_json::Value, AuthError> {
        Err(AuthError::Rejected)
    }
    fn encode(&self, _token: serde_json::Value, _encoding: &Encoding) -> Result<(), EncoderError> {
        Err(EncoderError::Declined)
    }
}

fn token() -> serde_json::Value {
    serde_json::Value::String("tok".to_string())
}

fn valid_descriptor() -> JobDescriptor {
    JobDescriptor {
        file: Some("file.mp4".to_string()),
        opt: Some(serde_json::Value::Object(serde_json::Map::new())),
    }
}

fn payload() -> serde_json::Map<String, serde_json::Value> {
    let mut m = serde_json::Map::new();
    m.insert(
        "progress".to_string(),
        serde_json::Value::String("50".to_string()),
    );
    m
}

#[test]
fn fresh_broker_has_empty_registry() {
    let mid: Middleware<AcceptingRpc> = Middleware::new();
    assert_eq!(mid.registry_len(), 0);
    assert!(!mid.is_active(1));
}

#[test]
fn scenario_login_start_abort() {
    let mut mid: Middleware<AcceptingRpc> = Middleware::new();
    let tok = mid
        .auth_login("alice".to_string(), "pw".to_string())
        .expect("the collaborator accepts these credentials");
    assert_eq!(tok, serde_json::Value::String("ok".to_string()));

    let (subscriber, _id_rx, _messages) = Subscriber::new_test("encode");
    let id = mid
        .start(tok, valid_descriptor(), subscriber)
        .expect("a valid descriptor is admitted");
    assert_eq!(id, 1);
    assert_eq!(mid.registry_len(), 1);
    assert!(mid.is_active(1));

    assert!(mid.abort(1));
    assert_eq!(mid.registry_len(), 0);
    assert!(!mid.abort(1));
    assert_eq!(mid.registry_len(), 0);
}

#[test]
fn scenario_empty_descriptor_rejected() {
    let mut mid: Middleware<AcceptingRpc> = Middleware::new();
    let (subscriber, _id_rx, _messages) = Subscriber::new_test("encode");
    let r = mid.start(token(), JobDescriptor { file: None, opt: None }, subscriber);
    assert_eq!(r, Err(RejectionError::InvalidParameters));
    assert_eq!(mid.registry_len(), 0);
}

#[test]
fn empty_resource_reference_rejected() {
    let mut mid: Middleware<AcceptingRpc> = Middleware::new();
    let (subscriber, _id_rx, _messages) = Subscriber::new_test("encode");
    let descriptor = JobDescriptor {
        file: Some(String::new()),
        opt: Some(serde_json::Value::Null),
    };
    let r = mid.start(token(), descriptor, subscriber);
    assert_eq!(r, Err(RejectionError::InvalidParameters));
    assert_eq!(mid.registry_len(), 0);
}

#[test]
fn missing_options_rejected() {
    let mut mid: Middleware<AcceptingRpc> = Middleware::new();
    let (subscriber, _id_rx, _messages) = Subscriber::new_test("encode");
    let descriptor = JobDescriptor {
        file: Some("file.mp4".to_string()),
        opt: None,
    };
    let r = mid.start(token(), descriptor, subscriber);
    assert_eq!(r, Err(RejectionError::InvalidParameters));
    assert_eq!(mid.registry_len(), 0);
}

#[test]
fn scenario_two_starts_get_distinct_ids() {
    let mut mid: Middleware<AcceptingRpc> = Middleware::new();
    let (sub1, _id_rx1, _messages1) = Subscriber::new_test("encode");
    let (sub2, _id_rx2, _messages2) = Subscriber::new_test("encode");
    let first = mid.start(token(), valid_descriptor(), sub1).expect("admitted");
    let second = mid.start(token(), valid_descriptor(), sub2).expect("admitted");
    assert_eq!(first, 1);
    assert_eq!(second, 2);
    assert_ne!(first, second);
    assert!(mid.is_active(first));
    assert!(mid.is_active(second));
    assert_eq!(mid.registry_len(), 2);
}

#[test]
fn scenario_encoder_declines() {
    let mut mid: Middleware<DecliningRpc> = Middleware::new();
    let (subscriber, _id_rx, _messages) = Subscriber::new_test("encode");
    let r = mid.start(token(), valid_descriptor(), subscriber);
    assert_eq!(r, Err(RejectionError::EncoderDeclined));
    assert_eq!(mid.registry_len(), 0);
    // The identifier allocated for the declined job is spent for good: it
    // never becomes a valid abort target.
    assert!(!mid.abort(1));
    assert_eq!(mid.notify(1, payload()), PushOutcome::Undeliverable);
}

#[test]
fn declined_id_is_never_reissued() {
    let mut mid: Middleware<DecliningRpc> = Middleware::new();
    let (sub1, _id_rx1, _messages1) = Subscriber::new_test("encode");
    let r = mid.start(token(), valid_descriptor(), sub1);
    assert_eq!(r, Err(RejectionError::EncoderDeclined));
    let (sub2, _id_rx2, _messages2) = Subscriber::new_test("encode");
    let r2 = mid.start(token(), valid_descriptor(), sub2);
    // Even a second declined admission spends a fresh identifier, as the
    // registry never saw either one.
    assert_eq!(r2, Err(RejectionError::EncoderDeclined));
    assert!(!mid.abort(1));
    assert!(!mid.abort(2));
}

#[test]
fn rejected_login_produces_no_token() {
    let mid: Middleware<DecliningRpc> = Middleware::new();
    let r = mid.auth_login("alice".to_string(), "wrong".to_string());
    assert_eq!(r, Err(AuthError::Rejected));
    assert_eq!(mid.registry_len(), 0);
}

#[test]
fn subscriber_gone_before_binding() {
    let mut mid: Middleware<AcceptingRpc> = Middleware::new();
    let (subscriber, id_rx, _messages) = Subscriber::new_test("encode");
    drop(id_rx);
    let r = mid.start(token(), valid_descriptor(), subscriber);
    assert_eq!(r, Err(RejectionError::SinkUnavailable));
    assert_eq!(mid.registry_len(), 0);
    // The identifier was spent nevertheless: the next admission gets 2.
    let (sub2, _id_rx2, _messages2) = Subscriber::new_test("encode");
    let id = mid.start(token(), valid_descriptor(), sub2).expect("admitted");
    assert_eq!(id, 2);
}

#[test]
fn notify_delivers_to_live_subscriber() {
    let mut mid: Middleware<AcceptingRpc> = Middleware::new();
    let (subscriber, _id_rx, mut messages) = Subscriber::new_test("encode");
    let id = mid.start(token(), valid_descriptor(), subscriber).expect("admitted");
    assert_eq!(mid.notify(id, payload()), PushOutcome::Delivered);
    let text = messages
        .try_next()
        .expect("one notification should be queued")
        .expect("the channel is still open");
    assert!(text.contains("progress"));
    assert!(text.contains("50"));
}

#[test]
fn notify_after_abort_is_undeliverable() {
    let mut mid: Middleware<AcceptingRpc> = Middleware::new();
    let (subscriber, _id_rx, _messages) = Subscriber::new_test("encode");
    let id = mid.start(token(), valid_descriptor(), subscriber).expect("admitted");
    assert!(mid.abort(id));
    assert_eq!(mid.notify(id, payload()), PushOutcome::Undeliverable);
    assert_eq!(mid.registry_len(), 0);
}

#[test]
fn notify_unknown_id_is_undeliverable() {
    let mid: Middleware<AcceptingRpc> = Middleware::new();
    assert_eq!(mid.notify(7, payload()), PushOutcome::Undeliverable);
    assert_eq!(mid.registry_len(), 0);
}

#[test]
fn notify_disconnected_subscriber_is_undeliverable() {
    let mut mid: Middleware<AcceptingRpc> = Middleware::new();
    let (subscriber, _id_rx, messages) = Subscriber::new_test("encode");
    let id = mid.start(token(), valid_descriptor(), subscriber).expect("admitted");
    drop(messages);
    assert_eq!(mid.notify(id, payload()), PushOutcome::Undeliverable);
    // The job is still registered; only delivery is impossible.
    assert!(mid.is_active(id));
}

#[test]
fn descriptor_validity() {
    assert!(valid_descriptor().is_valid());
    assert!(!JobDescriptor { file: None, opt: None }.is_valid());
    assert!(
        !JobDescriptor { file: Some(String::new()), opt: Some(serde_json::Value::Null) }
            .is_valid()
    );
    assert!(!JobDescriptor { file: Some("a".to_string()), opt: None }.is_valid());
    assert!(
        JobDescriptor { file: Some("a".to_string()), opt: Some(serde_json::Value::Null) }
            .is_valid()
    );
}

#[test]
fn encoding_keeps_descriptor_fields() {
    let (subscriber, _id_rx, _messages) = Subscriber::new_test("encode");
    let sink = subscriber
        .assign_id(jsonrpc_pubsub::SubscriptionId::Number(9))
        .expect("the test receivers are alive");
    let enc = Encoding::new("clip.avi".to_string(), serde_json::Value::Null, sink);
    assert_eq!(enc.file, "clip.avi");
    assert!(enc.opt.is_null());
    assert!(enc.update(payload()));
}

#[test]
fn cloned_sink_reaches_same_subscriber() {
    let (subscriber, _id_rx, mut messages) = Subscriber::new_test("encode");
    let sink = subscriber
        .assign_id(jsonrpc_pubsub::SubscriptionId::Number(9))
        .expect("the test receivers are alive");
    let enc = Encoding::new("clip.avi".to_string(), serde_json::Value::Null, sink);
    let handle = enc.sink.clone();
    assert!(handle.notify(jsonrpc_core::Params::Map(payload())).is_ok());
    let text = messages
        .try_next()
        .expect("one notification should be queued")
        .expect("the channel is still open");
    assert!(text.contains("progress"));
}
