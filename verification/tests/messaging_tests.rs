//! The messaging facade: transport selection, translation, and rejections.

use wasmbus_handler::handler::Handler;
use wasmbus_handler::iface::CallTargetInterface;
use wasmbus_handler::messaging::BrokerMessage;
use wasmbus_handler::messaging::DirectAction;
use wasmbus_handler::messaging::FallbackAction;
use wasmbus_handler::messaging::GuestMessage;
use wasmbus_handler::messaging::HostMessage;
use wasmbus_handler::messaging::Message;
use wasmbus_handler::messaging::MessagingClient;
use wasmbus_handler::messaging::MessagingError;
use wasmbus_handler::messaging::MessagingPlan;
use wasmbus_handler::messaging::backend_outcome;
use wasmbus_handler::messaging::broker_message_of_host;
use wasmbus_handler::messaging::request_fallback_outcome;
use wasmbus_handler::messaging::wrap_request_response;

fn handler() -> Handler {
    Handler::new("component-1".to_string(), "lattice-a".to_string(), 2000)
}

fn handler_with_direct_link() -> Handler {
    let mut h = handler();
    h.insert_messaging_link("default".to_string());
    h
}

fn host_message(headers: Option<Vec<(String, String)>>) -> HostMessage {
    HostMessage {
        subject: "in.subject".to_string(),
        payload: vec![1, 2, 3],
        reply: Some("reply.subject".to_string()),
        headers,
    }
}

fn pairs() -> Vec<(String, String)> {
    vec![("k1".to_string(), "v1".to_string()), ("k1".to_string(), "v2".to_string())]
}

#[test]
fn publish_uses_direct_connection_with_reply_subject() {
    let h = handler_with_direct_link();
    let m = BrokerMessage {
        subject: "s".to_string(),
        body: vec![9],
        reply_to: Some("r".to_string()),
    };
    let plan = h.plan_publish_v2(m);
    assert_eq!(
        plan,
        MessagingPlan::Direct(DirectAction::PublishWithReply {
            subject: "s".to_string(),
            reply_to: "r".to_string(),
            payload: vec![9],
        })
    );
}

#[test]
fn publish_falls_back_to_rpc_unchanged() {
    let h = handler();
    let m = BrokerMessage {
        subject: "s".to_string(),
        body: vec![9],
        reply_to: Some("r".to_string()),
    };
    let plan = h.plan_publish_v2(m);
    assert_eq!(
        plan,
        MessagingPlan::Fallback(FallbackAction::Publish(BrokerMessage {
            subject: "s".to_string(),
            body: vec![9],
            reply_to: Some("r".to_string()),
        }))
    );
}

#[test]
fn request_v2_prefers_direct_and_keeps_timeout_on_fallback() {
    let direct = handler_with_direct_link().plan_request_v2("s".to_string(), vec![1], 750);
    assert_eq!(
        direct,
        MessagingPlan::Direct(DirectAction::Request { subject: "s".to_string(), payload: vec![1] })
    );
    let fallback = handler().plan_request_v2("s".to_string(), vec![1], 750);
    assert_eq!(
        fallback,
        MessagingPlan::Fallback(FallbackAction::Request {
            subject: "s".to_string(),
            payload: vec![1],
            timeout_ms: 750,
        })
    );
}

#[test]
fn send_with_headers_over_fallback_is_a_hard_error() {
    // No direct pub/sub link: headers must fail, never be dropped silently.
    let h = handler();
    let client = MessagingClient::connect(String::new());
    let r = h.plan_send(&client, "t".to_string(), Message::Host(host_message(Some(pairs()))));
    assert_eq!(r, Err(MessagingError::HeadersUnsupported));
    assert_eq!(
        MessagingError::HeadersUnsupported.message(),
        "headers not currently supported by wRPC targets"
    );
}

#[test]
fn send_with_metadata_over_fallback_is_a_hard_error() {
    let h = handler();
    let client = MessagingClient::connect(String::new());
    let g = GuestMessage {
        content_type: Some("text/plain".to_string()),
        data: vec![7],
        metadata: Some(pairs()),
    };
    let r = h.plan_send(&client, "t".to_string(), Message::Guest(g));
    assert_eq!(r, Err(MessagingError::MetadataUnsupported));
}

#[test]
fn send_over_direct_translates_headers_and_drops_content_type_with_warning() {
    let h = handler_with_direct_link();
    let client = MessagingClient::connect("default".to_string());
    let g = GuestMessage {
        content_type: Some("text/plain".to_string()),
        data: vec![7],
        metadata: Some(pairs()),
    };
    let d = h.plan_send(&client, "t".to_string(), Message::Guest(g)).expect("plans");
    assert_eq!(
        d.plan,
        MessagingPlan::Direct(DirectAction::PublishWithHeaders {
            subject: "t".to_string(),
            headers: pairs(),
            payload: vec![7],
        })
    );
    assert_eq!(d.dropped_content_type, Some("text/plain".to_string()));
}

#[test]
fn send_over_fallback_publishes_body_alone() {
    let h = handler();
    let client = MessagingClient::connect(String::new());
    let d = h
        .plan_send(&client, "t".to_string(), Message::Host(host_message(None)))
        .expect("plans");
    assert_eq!(
        d.plan,
        MessagingPlan::Fallback(FallbackAction::Publish(BrokerMessage {
            subject: "t".to_string(),
            body: vec![1, 2, 3],
            reply_to: None,
        }))
    );
    assert_eq!(d.dropped_content_type, None);
}

#[test]
fn client_connection_name_must_match_active_link() {
    let h = handler_with_direct_link();
    let client = MessagingClient::connect("other".to_string());
    let r = h.plan_send(&client, "t".to_string(), Message::Host(host_message(None)));
    let e = r.expect_err("mismatch");
    assert_eq!(
        e.message(),
        "mismatch between link name and client connection name, `other` != `default`"
    );
}

#[test]
fn request_with_options_fails_on_every_transport() {
    let with_direct = handler_with_direct_link();
    let without_direct = handler();
    let client = MessagingClient::connect(String::new());
    let m = Message::Host(host_message(None));
    assert_eq!(
        with_direct.plan_request_v3(&client, "t".to_string(), &m, true),
        Err(MessagingError::OptionsUnsupported)
    );
    assert_eq!(
        without_direct.plan_request_v3(&client, "t".to_string(), &m, true),
        Err(MessagingError::OptionsUnsupported)
    );
}

#[test]
fn request_over_direct_carries_headers_natively() {
    let h = handler_with_direct_link();
    let client = MessagingClient::connect(String::new());
    let m = Message::Host(host_message(Some(pairs())));
    let d = h.plan_request_v3(&client, "t".to_string(), &m, false).expect("plans");
    assert_eq!(
        d.plan,
        MessagingPlan::Direct(DirectAction::RequestWithHeaders {
            subject: "t".to_string(),
            headers: pairs(),
            payload: vec![1, 2, 3],
        })
    );
}

#[test]
fn request_over_fallback_can_only_publish_and_reports_no_response() {
    let h = handler();
    let client = MessagingClient::connect(String::new());
    let m = Message::Wrpc(BrokerMessage {
        subject: "ignored".to_string(),
        body: vec![4, 5],
        reply_to: None,
    });
    let d = h.plan_request_v3(&client, "t".to_string(), &m, false).expect("plans");
    assert_eq!(
        d.plan,
        MessagingPlan::Fallback(FallbackAction::Publish(BrokerMessage {
            subject: "t".to_string(),
            body: vec![4, 5],
            reply_to: None,
        }))
    );
    // The caller asked for a reply: a delivered publish is still reported as
    // an explicit no-response error, and a failed one quotes the backend.
    assert_eq!(
        request_fallback_outcome(Ok(())),
        Err(MessagingError::NoResponseSupport)
    );
    assert_eq!(
        request_fallback_outcome(Err("boom".to_string())),
        Err(MessagingError::Backend("boom".to_string()))
    );
}

#[test]
fn direct_request_returns_exactly_one_host_message() {
    let response = host_message(None);
    let wrapped = wrap_request_response(response);
    assert_eq!(wrapped.len(), 1);
    assert!(matches!(&wrapped[0], Message::Host(m) if m.payload == vec![1, 2, 3]));
}

#[test]
fn reply_uses_the_intrinsic_reply_address_of_a_host_message() {
    let h = handler_with_direct_link();
    let reply_to = Message::Host(host_message(None));
    let out = Message::Wrpc(BrokerMessage {
        subject: "unused".to_string(),
        body: vec![8],
        reply_to: None,
    });
    let d = h.plan_reply(&reply_to, out).expect("plans");
    assert_eq!(
        d.plan,
        MessagingPlan::Direct(DirectAction::Publish {
            subject: "reply.subject".to_string(),
            payload: vec![8],
        })
    );
}

#[test]
fn reply_rejects_messages_without_reply_address() {
    let h = handler_with_direct_link();
    let out = Message::Wrpc(BrokerMessage {
        subject: "s".to_string(),
        body: vec![],
        reply_to: None,
    });
    let no_reply_host = Message::Host(HostMessage {
        subject: "s".to_string(),
        payload: vec![],
        reply: None,
        headers: None,
    });
    let no_reply_wrpc = Message::Wrpc(BrokerMessage {
        subject: "s".to_string(),
        body: vec![],
        reply_to: None,
    });
    let guest = Message::Guest(GuestMessage { content_type: None, data: vec![], metadata: None });
    assert_eq!(
        h.plan_reply(&no_reply_host, clone_wrpc(&out)),
        Err(MessagingError::ReplyMissingHost)
    );
    assert_eq!(
        h.plan_reply(&no_reply_wrpc, clone_wrpc(&out)),
        Err(MessagingError::ReplyMissingRpc)
    );
    assert_eq!(h.plan_reply(&guest, clone_wrpc(&out)), Err(MessagingError::ReplyToGuest));
}

fn clone_wrpc(m: &Message) -> Message {
    match m {
        Message::Wrpc(b) => Message::Wrpc(BrokerMessage {
            subject: b.subject.clone(),
            body: b.body.clone(),
            reply_to: b.reply_to.clone(),
        }),
        _ => panic!("only used for RPC-carried messages"),
    }
}

#[test]
fn reply_over_fallback_checks_the_message_before_the_reply_address() {
    // On the fallback path the body is assembled first, so a message fault
    // takes precedence over a missing reply address.
    let h = handler();
    let unreplyable = Message::Guest(GuestMessage {
        content_type: None,
        data: vec![],
        metadata: None,
    });
    let with_headers = Message::Host(host_message(Some(pairs())));
    assert_eq!(
        h.plan_reply(&unreplyable, with_headers),
        Err(MessagingError::HeadersUnsupported)
    );
}

#[test]
fn backend_failures_are_quoted_verbatim() {
    assert_eq!(backend_outcome(Ok(())), Ok(()));
    assert_eq!(
        backend_outcome(Err("no responders".to_string())),
        Err(MessagingError::Backend("no responders".to_string()))
    );
    assert_eq!(
        MessagingError::Backend("no responders".to_string()).message(),
        "no responders"
    );
}

#[test]
fn messaging_link_selection_follows_the_target_table() {
    // A direct connection under link "m1" is only used once "m1" is the
    // active link for the consumer interface.
    let mut h = handler();
    h.insert_messaging_link("m1".to_string());
    let m = BrokerMessage { subject: "s".to_string(), body: vec![], reply_to: None };
    assert!(matches!(h.plan_publish_v2(m), MessagingPlan::Fallback(_)));

    h.insert_link(
        "m1".to_string(),
        "wasmcloud:messaging/consumer".to_string(),
        "broker".to_string(),
    );
    let ifaces = vec![CallTargetInterface {
        namespace: "wasmcloud".to_string(),
        package: "messaging".to_string(),
        interface: "consumer".to_string(),
    }];
    h.set_link_name("m1".to_string(), &ifaces);
    let m2 = BrokerMessage { subject: "s".to_string(), body: vec![], reply_to: None };
    assert!(matches!(h.plan_publish_v2(m2), MessagingPlan::Direct(_)));
}

#[test]
fn host_message_metadata_round_trip() {
    let mut m = host_message(None);
    assert_eq!(m.metadata(), None);
    m.add_metadata("k1".to_string(), "v1".to_string());
    m.add_metadata("k1".to_string(), "v2".to_string());
    m.add_metadata("k2".to_string(), "v3".to_string());
    assert_eq!(
        m.metadata(),
        Some(vec![
            ("k1".to_string(), "v1".to_string()),
            ("k1".to_string(), "v2".to_string()),
            ("k2".to_string(), "v3".to_string()),
        ])
    );
    m.remove_metadata("k1".to_string());
    assert_eq!(m.metadata(), Some(vec![("k2".to_string(), "v3".to_string())]));
    m.set_metadata(pairs());
    assert_eq!(m.metadata(), Some(pairs()));
}

#[test]
fn host_message_accessors() {
    let mut m = host_message(None);
    assert_eq!(m.topic(), Some("in.subject".to_string()));
    assert_eq!(m.content_type(), None);
    assert_eq!(
        m.set_content_type("text/plain".to_string()),
        Err(MessagingError::ContentTypeUnsupported)
    );
    assert_eq!(m.data(), vec![1, 2, 3]);
    m.set_data(vec![9, 9]);
    assert_eq!(m.data(), vec![9, 9]);

    let b = broker_message_of_host(&m);
    assert_eq!(b.subject, "in.subject");
    assert_eq!(b.body, vec![9, 9]);
    assert_eq!(b.reply_to, Some("reply.subject".to_string()));
}

#[test]
fn client_handle_lifecycle() {
    let mut c = MessagingClient::connect("conn".to_string());
    assert_eq!(c.effective_name(), "conn");
    assert!(c.disconnect().is_ok());
    let empty = MessagingClient::connect(String::new());
    assert_eq!(empty.effective_name(), "default");
}
