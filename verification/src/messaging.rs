//! The messaging facade.
//!
//! Two generations of a pub/sub capability surface — a simple
//! request/publish generation and a richer one with explicit client handles
//! and typed messages from three origins — are implemented on top of either
//! a directly held pub/sub connection selected through the target table, or
//! a generic RPC fallback that re-expresses the call as an invocation of the
//! well-known messaging interface over the remote path.  The decisions made
//! here say which transport carries a call, how the message translates onto
//! it, and which combinations are rejected; the host performs the chosen
//! backend operation.

use vstd::prelude::*;
use vstd::string::StringExecFns;
use crate::handler::Handler;
use crate::handler::active_link_spec;
use crate::stream::copy_bytes;

verus! {

/// A message as the host holds it natively: one received from the directly
/// held pub/sub backend, with its intrinsic reply address and its native
/// header multimap flattened to ordered pairs.
#[derive(Debug, PartialEq, Eq)]
pub struct HostMessage {
    pub subject: String,
    pub payload: Vec<u8>,
    pub reply: Option<String>,
    pub headers: Option<Vec<(String, String)>>,
}

/// A message of the simple generation, also the shape carried over the
/// generic RPC messaging interface.
#[derive(Debug, PartialEq, Eq)]
pub struct BrokerMessage {
    pub subject: String,
    pub body: Vec<u8>,
    pub reply_to: Option<String>,
}

/// A message a guest constructed: payload plus optional content type and
/// metadata; it carries no reply address.
#[derive(Debug, PartialEq, Eq)]
pub struct GuestMessage {
    pub content_type: Option<String>,
    pub data: Vec<u8>,
    pub metadata: Option<Vec<(String, String)>>,
}

/// The three origins of a richer-generation message, as a closed sum: the
/// set of origins is small and fixed, so exhaustive matching replaces any
/// runtime type inspection.
#[derive(Debug, PartialEq, Eq)]
pub enum Message {
    Host(HostMessage),
    Wrpc(BrokerMessage),
    Guest(GuestMessage),
}

/// The client handle of the richer generation: it records the connection
/// name it was opened under, which must match the active link name of each
/// operation it is used for.
pub struct MessagingClient {
    name: String,
}

impl View for MessagingClient {
    type V = Seq<char>;

    closed spec fn view(&self) -> Seq<char> {
        self.name@
    }
}

impl MessagingClient {
    /// Open a client handle bound to a connection name.
    pub fn connect(name: String) -> (c: Self)
        ensures
            c@ == name@,
    {
        MessagingClient { name }
    }

    /// Closing a handle never fails and holds no connection state.
    pub fn disconnect(&mut self) -> (r: Result<(), MessagingError>)
        ensures
            r is Ok,
            *final(self) == *old(self),
    {
        Ok(())
    }

    /// The connection name an operation compares against the active link:
    /// an empty name means `default`.
    pub fn effective_name(&self) -> (r: String)
        ensures
            r@ == effective_client_name(self@),
    {
        if self.name.as_str().unicode_len() == 0 {
            String::from_str("default")
        } else {
            self.name.clone()
        }
    }
}

impl Handler {
    /// Open a client handle of the richer generation; opening never fails
    /// and holds no connection state of its own.
    pub fn connect(&self, name: String) -> (r: Result<MessagingClient, MessagingError>)
        ensures
            r matches Ok(c) && c@ == name@,
    {
        Ok(MessagingClient::connect(name))
    }
}

/// An empty client connection name stands for `default`.
pub open spec fn effective_client_name(name: Seq<char>) -> Seq<char> {
    if name.len() == 0 {
        "default"@
    } else {
        name
    }
}

/// A capability-mismatch or backend failure of a messaging operation, typed
/// so callers can react differently to each.
#[derive(Debug, PartialEq, Eq)]
pub enum MessagingError {
    /// The client's bound connection name does not match the active link
    /// name of the operation.
    LinkNameMismatch { name: String, target: String },
    /// Headers are not supported by the RPC fallback transport: a hard
    /// error, never a silent drop.
    HeadersUnsupported,
    /// Metadata is not supported by the RPC fallback transport.
    MetadataUnsupported,
    /// Caller-supplied request options are not supported on any transport.
    OptionsUnsupported,
    /// The host-native message being replied to carries no reply address.
    ReplyMissingHost,
    /// The RPC-carried message being replied to carries no reply address.
    ReplyMissingRpc,
    /// A guest-constructed message has no reply address concept.
    ReplyToGuest,
    /// Setting a content type on a host-native message is not supported.
    ContentTypeUnsupported,
    /// The fallback transport delivered the request as a publish and has no
    /// response channel: the send succeeded but no response is available.
    NoResponseSupport,
    /// The backend reported a failure, quoted verbatim.
    Backend(String),
}

/// The operator-facing message of each error.
pub open spec fn messaging_error_message(e: MessagingError) -> Seq<char> {
    match e {
        MessagingError::LinkNameMismatch { name, target } => {
            "mismatch between link name and client connection name, `"@ + name@ + "` != `"@
                + target@ + "`"@
        },
        MessagingError::HeadersUnsupported => "headers not currently supported by wRPC targets"@,
        MessagingError::MetadataUnsupported => {
            "`metadata` not currently supported by wRPC targets"@
        },
        MessagingError::OptionsUnsupported => "`options` not currently supported"@,
        MessagingError::ReplyMissingHost => "reply not set in incoming NATS.io message"@,
        MessagingError::ReplyMissingRpc => "reply not set in incoming wRPC message"@,
        MessagingError::ReplyToGuest => "cannot reply to guest message"@,
        MessagingError::ContentTypeUnsupported => "`content-type` not supported"@,
        MessagingError::NoResponseSupport => {
            "message sent, but returning responses is not currently supported by wRPC targets"@
        },
        MessagingError::Backend(s) => s@,
    }
}

impl MessagingError {
    /// Render the operator-facing message.
    pub fn message(&self) -> (r: String)
        ensures
            r@ == messaging_error_message(*self),
    {
        match self {
            MessagingError::LinkNameMismatch { name, target } => {
                let mut s = String::from_str(
                    "mismatch between link name and client connection name, `",
                );
                s.append(name.as_str());
                s.append("` != `");
                s.append(target.as_str());
                s.append("`");
                s
            },
            MessagingError::HeadersUnsupported => {
                String::from_str("headers not currently supported by wRPC targets")
            },
            MessagingError::MetadataUnsupported => {
                String::from_str("`metadata` not currently supported by wRPC targets")
            },
            MessagingError::OptionsUnsupported => {
                String::from_str("`options` not currently supported")
            },
            MessagingError::ReplyMissingHost => {
                String::from_str("reply not set in incoming NATS.io message")
            },
            MessagingError::ReplyMissingRpc => {
                String::from_str("reply not set in incoming wRPC message")
            },
            MessagingError::ReplyToGuest => String::from_str("cannot reply to guest message"),
            MessagingError::ContentTypeUnsupported => {
                String::from_str("`content-type` not supported")
            },
            MessagingError::NoResponseSupport => {
                String::from_str(
                    "message sent, but returning responses is not currently supported by wRPC targets",
                )
            },
            MessagingError::Backend(s) => s.clone(),
        }
    }
}

/// Copy a list of string pairs exactly.
pub fn copy_pairs(v: &Vec<(String, String)>) -> (r: Vec<(String, String)>)
    ensures
        r@ == v@,
{
    let n = v.len();
    let mut r: Vec<(String, String)> = Vec::new();
    let mut i: usize = 0;
    while i < n
        invariant
            n == v@.len(),
            0 <= i <= n,
            r@.len() == i,
            forall|j: int| 0 <= j < i ==> #[trigger] r@[j] == v@[j],
        decreases n - i,
    {
        let k = v[i].0.clone();
        let val = v[i].1.clone();
        r.push((k, val));
        i += 1;
    }
    proof {
        assert(r@ =~= v@);
    }
    r
}

impl HostMessage {
    /// The subject the message arrived on.
    pub fn topic(&self) -> (r: Option<String>)
        ensures
            r matches Some(t) && t@ == self.subject@,
    {
        Some(self.subject.clone())
    }

    /// A host-native message has no content type.
    pub fn content_type(&self) -> (r: Option<String>)
        ensures
            r is None,
    {
        None
    }

    /// Setting a content type is not supported on a host-native message.
    pub fn set_content_type(&mut self, _content_type: String) -> (r: Result<(), MessagingError>)
        ensures
            *final(self) == *old(self),
            r matches Err(e) && e is ContentTypeUnsupported,
    {
        Err(MessagingError::ContentTypeUnsupported)
    }

    /// The payload bytes.
    pub fn data(&self) -> (r: Vec<u8>)
        ensures
            r@ == self.payload@,
    {
        copy_bytes(&self.payload)
    }

    /// Replace the payload bytes.
    pub fn set_data(&mut self, buf: Vec<u8>)
        ensures
            final(self).payload == buf,
            final(self).subject == old(self).subject,
            final(self).reply == old(self).reply,
            final(self).headers == old(self).headers,
    {
        self.payload = buf;
    }

    /// The metadata pairs, in insertion order, if the message carries any.
    pub fn metadata(&self) -> (r: Option<Vec<(String, String)>>)
        ensures
            match r {
                Some(m) => self.headers matches Some(h) && m@ == h@,
                None => self.headers is None,
            },
    {
        match &self.headers {
            Some(h) => Some(copy_pairs(h)),
            None => None,
        }
    }

    /// Append one metadata pair; a message without metadata gains its first
    /// pair.
    pub fn add_metadata(&mut self, key: String, value: String)
        ensures
            final(self).headers matches Some(h) && h@ == (match old(self).headers {
                Some(h0) => h0@,
                None => Seq::<(String, String)>::empty(),
            }).push((key, value)),
            final(self).subject == old(self).subject,
            final(self).payload == old(self).payload,
            final(self).reply == old(self).reply,
    {
        let hs = self.headers.take();
        match hs {
            Some(mut h) => {
                h.push((key, value));
                self.headers = Some(h);
            },
            None => {
                let mut h: Vec<(String, String)> = Vec::new();
                h.push((key, value));
                proof {
                    assert(h@ =~= Seq::<(String, String)>::empty().push((key, value)));
                }
                self.headers = Some(h);
            },
        }
    }

    /// Replace the metadata wholesale.
    pub fn set_metadata(&mut self, meta: Vec<(String, String)>)
        ensures
            final(self).headers matches Some(h) && h == meta,
            final(self).subject == old(self).subject,
            final(self).payload == old(self).payload,
            final(self).reply == old(self).reply,
    {
        self.headers = Some(meta);
    }

    /// Remove every metadata pair under `key`, keeping the order of the
    /// rest; a message without metadata is left as it is.
    pub fn remove_metadata(&mut self, key: String)
        ensures
            match old(self).headers {
                Some(h0) => final(self).headers matches Some(h) && h@ == h0@.filter(
                    |kv: (String, String)| kv.0@ != key@,
                ),
                None => *final(self) == *old(self),
            },
            final(self).subject == old(self).subject,
            final(self).payload == old(self).payload,
            final(self).reply == old(self).reply,
    {
        let ghost pred = |kv: (String, String)| kv.0@ != key@;
        let hs = self.headers.take();
        match hs {
            Some(h0) => {
                let n = h0.len();
                let mut acc: Vec<(String, String)> = Vec::new();
                let mut i: usize = 0;
                proof {
                    reveal_with_fuel(Seq::<(String, String)>::filter, 2);
                    assert(h0@.subrange(0, 0).filter(pred) =~= Seq::<(String, String)>::empty());
                }
                while i < n
                    invariant
                        n == h0@.len(),
                        0 <= i <= n,
                        pred == (|kv: (String, String)| kv.0@ != key@),
                        acc@ == h0@.subrange(0, i as int).filter(pred),
                    decreases n - i,
                {
                    let keep = !(h0[i].0 == key);
                    proof {
                        reveal_with_fuel(Seq::<(String, String)>::filter, 2);
                        let prefix = h0@.subrange(0, i as int);
                        let step = h0@.subrange(0, i + 1);
                        assert(step =~= prefix + seq![h0@[i as int]]);
                        Seq::filter_distributes_over_add(prefix, seq![h0@[i as int]], pred);
                        assert(seq![h0@[i as int]].drop_last() =~= Seq::<(String, String)>::empty());
                        assert(Seq::<(String, String)>::empty().filter(pred) =~= Seq::<(
                            String,
                            String,
                        )>::empty());
                        if pred(h0@[i as int]) {
                            assert(seq![h0@[i as int]].filter(pred) =~= seq![h0@[i as int]]);
                        } else {
                            assert(seq![h0@[i as int]].filter(pred) =~= Seq::<(
                                String,
                                String,
                            )>::empty());
                        }
                    }
                    if keep {
                        let k = h0[i].0.clone();
                        let v = h0[i].1.clone();
                        acc.push((k, v));
                        proof {
                            assert(acc@ =~= h0@.subrange(0, i + 1).filter(pred));
                        }
                    } else {
                        proof {
                            assert(acc@ =~= h0@.subrange(0, i + 1).filter(pred));
                        }
                    }
                    i += 1;
                }
                proof {
                    assert(h0@.subrange(0, n as int) =~= h0@);
                }
                self.headers = Some(acc);
            },
            None => {
                self.headers = None;
            },
        }
    }
}

/// The simple-generation view of a host-native message: the subject, the
/// payload, and the intrinsic reply address; the native headers have no
/// place in the simple shape and are not carried over.
pub fn broker_message_of_host(m: &HostMessage) -> (r: BrokerMessage)
    ensures
        r.subject@ == m.subject@,
        r.body@ == m.payload@,
        match m.reply {
            Some(rep) => r.reply_to matches Some(rt) && rt@ == rep@,
            None => r.reply_to is None,
        },
{
    BrokerMessage {
        subject: m.subject.clone(),
        body: copy_bytes(&m.payload),
        reply_to: match &m.reply {
            Some(rep) => Some(rep.clone()),
            None => None,
        },
    }
}

/// An operation to perform on the directly held pub/sub connection.
#[derive(Debug, PartialEq, Eq)]
pub enum DirectAction {
    Publish { subject: String, payload: Vec<u8> },
    PublishWithReply { subject: String, reply_to: String, payload: Vec<u8> },
    PublishWithHeaders { subject: String, headers: Vec<(String, String)>, payload: Vec<u8> },
    Request { subject: String, payload: Vec<u8> },
    RequestWithHeaders { subject: String, headers: Vec<(String, String)>, payload: Vec<u8> },
}

/// A call re-expressed over the generic RPC messaging interface, carried by
/// the remote invocation path.
#[derive(Debug, PartialEq, Eq)]
pub enum FallbackAction {
    Publish(BrokerMessage),
    Request { subject: String, payload: Vec<u8>, timeout_ms: u32 },
}

/// Which transport carries a messaging call, and what it does there.
#[derive(Debug, PartialEq, Eq)]
pub enum MessagingPlan {
    Direct(DirectAction),
    Fallback(FallbackAction),
}

/// A planned messaging call: the operation to perform, plus a content type
/// that no transport can represent — dropped with a warning-level signal
/// (the host logs it and the call proceeds), never an error.
#[derive(Debug, PartialEq, Eq)]
pub struct MessagingDecision {
    pub plan: MessagingPlan,
    pub dropped_content_type: Option<String>,
}

/// The well-known interface the simple generation's operations resolve
/// their link through.
pub open spec fn consumer_interface() -> Seq<char> {
    "wasmcloud:messaging/consumer"@
}

/// The well-known interface `send` resolves its link through.
pub open spec fn producer_interface() -> Seq<char> {
    "wasmcloud:messaging/producer"@
}

/// The well-known interface `request` and `reply` resolve their link
/// through.
pub open spec fn request_reply_interface() -> Seq<char> {
    "wasmcloud:messaging/request-reply"@
}

fn consumer_interface_name() -> (r: String)
    ensures
        r@ == consumer_interface(),
{
    String::from_str("wasmcloud:messaging/consumer")
}

fn producer_interface_name() -> (r: String)
    ensures
        r@ == producer_interface(),
{
    String::from_str("wasmcloud:messaging/producer")
}

fn request_reply_interface_name() -> (r: String)
    ensures
        r@ == request_reply_interface(),
{
    String::from_str("wasmcloud:messaging/request-reply")
}

/// The message being replied to carries a reply subject.
pub open spec fn has_reply_subject(m: Message) -> bool {
    match m {
        Message::Host(hm) => hm.reply is Some,
        Message::Wrpc(bm) => bm.reply_to is Some,
        Message::Guest(_) => false,
    }
}

/// The reply subject carried by the message being replied to.
pub open spec fn reply_subject_spec(m: Message) -> Seq<char>
    recommends
        has_reply_subject(m),
{
    match m {
        Message::Host(hm) => match hm.reply {
            Some(s) => s@,
            None => Seq::empty(),
        },
        Message::Wrpc(bm) => match bm.reply_to {
            Some(s) => s@,
            None => Seq::empty(),
        },
        Message::Guest(_) => Seq::empty(),
    }
}

/// Why a message cannot be replied to: a host-native message without its
/// intrinsic reply address, an RPC-carried message without its optional
/// reply field, or a guest-constructed message, which has no reply address
/// concept at all.
pub open spec fn reply_error_spec(m: Message, e: MessagingError) -> bool {
    match m {
        Message::Host(_) => e is ReplyMissingHost,
        Message::Wrpc(_) => e is ReplyMissingRpc,
        Message::Guest(_) => e is ReplyToGuest,
    }
}

impl Handler {
    /// The simple generation's `publish`: over the direct connection when
    /// the consumer interface's active link holds one — with the reply
    /// subject attached when the message carries one — and otherwise as the
    /// same message over the RPC fallback, unchanged.
    pub fn plan_publish_v2(&self, message: BrokerMessage) -> (r: MessagingPlan)
        requires
            self.wf(),
        ensures
            ({
                let direct = self.messaging_links@.contains(
                    active_link_spec(self.targets@, consumer_interface()),
                );
                &&& (direct && message.reply_to is Some ==> (r matches MessagingPlan::Direct(
                    DirectAction::PublishWithReply { subject, reply_to, payload },
                ) && subject == message.subject && Some(reply_to) == message.reply_to && payload
                    == message.body))
                &&& (direct && message.reply_to is None ==> (r matches MessagingPlan::Direct(
                    DirectAction::Publish { subject, payload },
                ) && subject == message.subject && payload == message.body))
                &&& (!direct ==> (r matches MessagingPlan::Fallback(FallbackAction::Publish(bm))
                    && bm == message))
            }),
    {
        let consumer = consumer_interface_name();
        let link = self.active_link(&consumer);
        let direct = self.messaging_links.contains(&link);
        if direct {
            let BrokerMessage { subject, body, reply_to } = message;
            match reply_to {
                Some(rt) => MessagingPlan::Direct(
                    DirectAction::PublishWithReply { subject, reply_to: rt, payload: body },
                ),
                None => MessagingPlan::Direct(DirectAction::Publish { subject, payload: body }),
            }
        } else {
            MessagingPlan::Fallback(FallbackAction::Publish(message))
        }
    }

    /// The simple generation's `request`: over the direct connection when
    /// the consumer interface's active link holds one, otherwise as an RPC
    /// request with the caller's timeout.
    pub fn plan_request_v2(&self, subject: String, body: Vec<u8>, timeout_ms: u32) -> (r:
        MessagingPlan)
        requires
            self.wf(),
        ensures
            ({
                let direct = self.messaging_links@.contains(
                    active_link_spec(self.targets@, consumer_interface()),
                );
                &&& (direct ==> (r matches MessagingPlan::Direct(
                    DirectAction::Request { subject: s, payload },
                ) && s == subject && payload == body))
                &&& (!direct ==> (r matches MessagingPlan::Fallback(
                    FallbackAction::Request { subject: s, payload, timeout_ms: t },
                ) && s == subject && payload == body && t == timeout_ms))
            }),
    {
        let consumer = consumer_interface_name();
        let link = self.active_link(&consumer);
        if self.messaging_links.contains(&link) {
            MessagingPlan::Direct(DirectAction::Request { subject, payload: body })
        } else {
            MessagingPlan::Fallback(FallbackAction::Request { subject, payload: body, timeout_ms })
        }
    }

    /// The richer generation's `send`: the client's connection name must
    /// match the producer interface's active link; over the direct
    /// connection the message's headers or metadata translate to the
    /// backend's native headers and a content type is dropped with a
    /// warning; over the RPC fallback headers and metadata are hard errors
    /// — never silently dropped — and the body alone is published.
    pub fn plan_send(&self, client: &MessagingClient, topic: String, message: Message) -> (r:
        Result<MessagingDecision, MessagingError>)
        requires
            self.wf(),
        ensures
            ({
                let target = active_link_spec(self.targets@, producer_interface());
                let name = effective_client_name(client@);
                let direct = self.messaging_links@.contains(target);
                &&& (name != target ==> (r matches Err(
                    MessagingError::LinkNameMismatch { name: n, target: t },
                ) && n@ == name && t@ == target))
                &&& (name == target && direct ==> (match message {
                    Message::Host(m) => (r matches Ok(d) && d.dropped_content_type is None
                        && (match m.headers {
                        Some(h) => d.plan matches MessagingPlan::Direct(
                            DirectAction::PublishWithHeaders { subject, headers, payload },
                        ) && subject == topic && headers == h && payload == m.payload,
                        None => d.plan matches MessagingPlan::Direct(
                            DirectAction::Publish { subject, payload },
                        ) && subject == topic && payload == m.payload,
                    })),
                    Message::Wrpc(bm) => (r matches Ok(d) && d.dropped_content_type is None
                        && (d.plan matches MessagingPlan::Direct(
                        DirectAction::Publish { subject, payload },
                    ) && subject == topic && payload == bm.body)),
                    Message::Guest(g) => (r matches Ok(d) && d.dropped_content_type
                        == g.content_type && (match g.metadata {
                        Some(meta) => d.plan matches MessagingPlan::Direct(
                            DirectAction::PublishWithHeaders { subject, headers, payload },
                        ) && subject == topic && headers == meta && payload == g.data,
                        None => d.plan matches MessagingPlan::Direct(
                            DirectAction::Publish { subject, payload },
                        ) && subject == topic && payload == g.data,
                    })),
                }))
                &&& (name == target && !direct ==> (match message {
                    Message::Host(m) => (match m.headers {
                        Some(_) => r matches Err(e) && e is HeadersUnsupported,
                        None => r matches Ok(d) && d.dropped_content_type is None && (d.plan
                            matches MessagingPlan::Fallback(FallbackAction::Publish(bm))
                            && bm.subject == topic && bm.body == m.payload && bm.reply_to is None),
                    }),
                    Message::Wrpc(bm0) => (r matches Ok(d) && d.dropped_content_type is None && (
                    d.plan matches MessagingPlan::Fallback(FallbackAction::Publish(bm))
                        && bm.subject == topic && bm.body == bm0.body && bm.reply_to is None)),
                    Message::Guest(g) => (match g.metadata {
                        Some(_) => r matches Err(e) && e is MetadataUnsupported,
                        None => r matches Ok(d) && d.dropped_content_type == g.content_type && (
                        d.plan matches MessagingPlan::Fallback(FallbackAction::Publish(bm))
                            && bm.subject == topic && bm.body == g.data && bm.reply_to is None),
                    }),
                }))
            }),
    {
        let producer = producer_interface_name();
        let target = self.active_link(&producer);
        let name = client.effective_name();
        if !(name == target) {
            return Err(MessagingError::LinkNameMismatch { name, target });
        }
        if self.messaging_links.contains(&target) {
            match message {
                Message::Host(m) => {
                    let HostMessage { payload, headers, .. } = m;
                    match headers {
                        Some(h) => Ok(
                            MessagingDecision {
                                plan: MessagingPlan::Direct(
                                    DirectAction::PublishWithHeaders {
                                        subject: topic,
                                        headers: h,
                                        payload,
                                    },
                                ),
                                dropped_content_type: None,
                            },
                        ),
                        None => Ok(
                            MessagingDecision {
                                plan: MessagingPlan::Direct(
                                    DirectAction::Publish { subject: topic, payload },
                                ),
                                dropped_content_type: None,
                            },
                        ),
                    }
                },
                Message::Wrpc(bm) => Ok(
                    MessagingDecision {
                        plan: MessagingPlan::Direct(
                            DirectAction::Publish { subject: topic, payload: bm.body },
                        ),
                        dropped_content_type: None,
                    },
                ),
                Message::Guest(g) => {
                    let GuestMessage { content_type, data, metadata } = g;
                    match metadata {
                        Some(meta) => Ok(
                            MessagingDecision {
                                plan: MessagingPlan::Direct(
                                    DirectAction::PublishWithHeaders {
                                        subject: topic,
                                        headers: meta,
                                        payload: data,
                                    },
                                ),
                                dropped_content_type: content_type,
                            },
                        ),
                        None => Ok(
                            MessagingDecision {
                                plan: MessagingPlan::Direct(
                                    DirectAction::Publish { subject: topic, payload: data },
                                ),
                                dropped_content_type: content_type,
                            },
                        ),
                    }
                },
            }
        } else {
            let body: Vec<u8> = match message {
                Message::Host(m) => {
                    if m.headers.is_some() {
                        return Err(MessagingError::HeadersUnsupported);
                    }
                    m.payload
                },
                Message::Wrpc(bm) => bm.body,
                Message::Guest(g) => {
                    if g.metadata.is_some() {
                        return Err(MessagingError::MetadataUnsupported);
                    }
                    let GuestMessage { content_type, data, .. } = g;
                    return Ok(
                        MessagingDecision {
                            plan: MessagingPlan::Fallback(
                                FallbackAction::Publish(
                                    BrokerMessage { subject: topic, body: data, reply_to: None },
                                ),
                            ),
                            dropped_content_type: content_type,
                        },
                    );
                },
            };
            Ok(
                MessagingDecision {
                    plan: MessagingPlan::Fallback(
                        FallbackAction::Publish(
                            BrokerMessage { subject: topic, body, reply_to: None },
                        ),
                    ),
                    dropped_content_type: None,
                },
            )
        }
    }
}

/// Two optional strings agree in content.
pub open spec fn same_opt_string(a: Option<String>, b: Option<String>) -> bool {
    match a {
        Some(x) => b matches Some(y) && x@ == y@,
        None => b is None,
    }
}

/// The message's body can be carried by the RPC fallback: a host-native
/// message without headers, an RPC-carried message, or a guest message
/// without metadata.
pub open spec fn fallback_body_ok(m: Message) -> bool {
    match m {
        Message::Host(hm) => hm.headers is None,
        Message::Wrpc(_) => true,
        Message::Guest(g) => g.metadata is None,
    }
}

fn clone_opt_string(a: &Option<String>) -> (r: Option<String>)
    ensures
        same_opt_string(r, *a),
        same_opt_string(*a, r),
{
    match a {
        Some(x) => Some(x.clone()),
        None => None,
    }
}

impl Handler {
    /// The richer generation's `request`: caller-supplied options are
    /// rejected outright, on every transport.  Otherwise the client's
    /// connection name must match the request-reply interface's active
    /// link; over the direct connection the request carries the message's
    /// headers or metadata natively; over the RPC fallback headers and
    /// metadata are hard errors, and the call can only be delivered as a
    /// publish of the body (see `request_fallback_outcome` for what the
    /// caller is then told).
    pub fn plan_request_v3(
        &self,
        client: &MessagingClient,
        topic: String,
        message: &Message,
        has_options: bool,
    ) -> (r: Result<MessagingDecision, MessagingError>)
        requires
            self.wf(),
        ensures
            ({
                let target = active_link_spec(self.targets@, request_reply_interface());
                let name = effective_client_name(client@);
                let direct = self.messaging_links@.contains(target);
                &&& (has_options ==> (r matches Err(e) && e is OptionsUnsupported))
                &&& (!has_options && name != target ==> (r matches Err(
                    MessagingError::LinkNameMismatch { name: n, target: t },
                ) && n@ == name && t@ == target))
                &&& (!has_options && name == target && direct ==> (match *message {
                    Message::Host(m) => (r matches Ok(d) && d.dropped_content_type is None
                        && (match m.headers {
                        Some(h) => d.plan matches MessagingPlan::Direct(
                            DirectAction::RequestWithHeaders { subject, headers, payload },
                        ) && subject == topic && headers@ == h@ && payload@ == m.payload@,
                        None => d.plan matches MessagingPlan::Direct(
                            DirectAction::Request { subject, payload },
                        ) && subject == topic && payload@ == m.payload@,
                    })),
                    Message::Wrpc(bm) => (r matches Ok(d) && d.dropped_content_type is None && (
                    d.plan matches MessagingPlan::Direct(DirectAction::Request { subject, payload })
                        && subject == topic && payload@ == bm.body@)),
                    Message::Guest(g) => (r matches Ok(d) && same_opt_string(
                        d.dropped_content_type,
                        g.content_type,
                    ) && (match g.metadata {
                        Some(meta) => d.plan matches MessagingPlan::Direct(
                            DirectAction::RequestWithHeaders { subject, headers, payload },
                        ) && subject == topic && headers@ == meta@ && payload@ == g.data@,
                        None => d.plan matches MessagingPlan::Direct(
                            DirectAction::Request { subject, payload },
                        ) && subject == topic && payload@ == g.data@,
                    })),
                }))
                &&& (!has_options && name == target && !direct ==> (match *message {
                    Message::Host(m) => (match m.headers {
                        Some(_) => r matches Err(e) && e is HeadersUnsupported,
                        None => r matches Ok(d) && d.dropped_content_type is None && (d.plan
                            matches MessagingPlan::Fallback(FallbackAction::Publish(bm))
                            && bm.subject == topic && bm.body@ == m.payload@ && bm.reply_to
                            is None),
                    }),
                    Message::Wrpc(bm0) => (r matches Ok(d) && d.dropped_content_type is None && (
                    d.plan matches MessagingPlan::Fallback(FallbackAction::Publish(bm))
                        && bm.subject == topic && bm.body@ == bm0.body@ && bm.reply_to is None)),
                    Message::Guest(g) => (match g.metadata {
                        Some(_) => r matches Err(e) && e is MetadataUnsupported,
                        None => r matches Ok(d) && same_opt_string(
                            d.dropped_content_type,
                            g.content_type,
                        ) && (d.plan matches MessagingPlan::Fallback(FallbackAction::Publish(bm))
                            && bm.subject == topic && bm.body@ == g.data@ && bm.reply_to is None),
                    }),
                }))
            }),
    {
        if has_options {
            return Err(MessagingError::OptionsUnsupported);
        }
        let rr = request_reply_interface_name();
        let target = self.active_link(&rr);
        let name = client.effective_name();
        if !(name == target) {
            return Err(MessagingError::LinkNameMismatch { name, target });
        }
        if self.messaging_links.contains(&target) {
            match message {
                Message::Host(m) => {
                    match &m.headers {
                        Some(h) => Ok(
                            MessagingDecision {
                                plan: MessagingPlan::Direct(
                                    DirectAction::RequestWithHeaders {
                                        subject: topic,
                                        headers: copy_pairs(h),
                                        payload: copy_bytes(&m.payload),
                                    },
                                ),
                                dropped_content_type: None,
                            },
                        ),
                        None => Ok(
                            MessagingDecision {
                                plan: MessagingPlan::Direct(
                                    DirectAction::Request {
                                        subject: topic,
                                        payload: copy_bytes(&m.payload),
                                    },
                                ),
                                dropped_content_type: None,
                            },
                        ),
                    }
                },
                Message::Wrpc(bm) => Ok(
                    MessagingDecision {
                        plan: MessagingPlan::Direct(
                            DirectAction::Request {
                                subject: topic,
                                payload: copy_bytes(&bm.body),
                            },
                        ),
                        dropped_content_type: None,
                    },
                ),
                Message::Guest(g) => {
                    match &g.metadata {
                        Some(meta) => Ok(
                            MessagingDecision {
                                plan: MessagingPlan::Direct(
                                    DirectAction::RequestWithHeaders {
                                        subject: topic,
                                        headers: copy_pairs(meta),
                                        payload: copy_bytes(&g.data),
                                    },
                                ),
                                dropped_content_type: clone_opt_string(&g.content_type),
                            },
                        ),
                        None => Ok(
                            MessagingDecision {
                                plan: MessagingPlan::Direct(
                                    DirectAction::Request {
                                        subject: topic,
                                        payload: copy_bytes(&g.data),
                                    },
                                ),
                                dropped_content_type: clone_opt_string(&g.content_type),
                            },
                        ),
                    }
                },
            }
        } else {
            let (body, dropped): (Vec<u8>, Option<String>) = match message {
                Message::Host(m) => {
                    if m.headers.is_some() {
                        return Err(MessagingError::HeadersUnsupported);
                    }
                    (copy_bytes(&m.payload), None)
                },
                Message::Wrpc(bm) => (copy_bytes(&bm.body), None),
                Message::Guest(g) => {
                    if g.metadata.is_some() {
                        return Err(MessagingError::MetadataUnsupported);
                    }
                    (copy_bytes(&g.data), clone_opt_string(&g.content_type))
                },
            };
            Ok(
                MessagingDecision {
                    plan: MessagingPlan::Fallback(
                        FallbackAction::Publish(
                            BrokerMessage { subject: topic, body, reply_to: None },
                        ),
                    ),
                    dropped_content_type: dropped,
                },
            )
        }
    }

    /// The richer generation's `reply`: the reply subject is the intrinsic
    /// reply address of a host-native message or the optional reply field
    /// of an RPC-carried one — a guest-constructed message can never be
    /// replied to.  The outgoing message then travels as in `send`; on the
    /// RPC fallback a message fault (headers, metadata) takes precedence
    /// over a missing reply subject, as the body is assembled first.
    pub fn plan_reply(&self, reply_to: &Message, message: Message) -> (r: Result<
        MessagingDecision,
        MessagingError,
    >)
        requires
            self.wf(),
        ensures
            ({
                let target = active_link_spec(self.targets@, request_reply_interface());
                let direct = self.messaging_links@.contains(target);
                let rsubj = reply_subject_spec(*reply_to);
                &&& (direct && !has_reply_subject(*reply_to) ==> (r matches Err(e)
                    && reply_error_spec(*reply_to, e)))
                &&& (direct && has_reply_subject(*reply_to) ==> (match message {
                    Message::Host(m) => (r matches Ok(d) && d.dropped_content_type is None
                        && (match m.headers {
                        Some(h) => d.plan matches MessagingPlan::Direct(
                            DirectAction::PublishWithHeaders { subject, headers, payload },
                        ) && subject@ == rsubj && headers == h && payload == m.payload,
                        None => d.plan matches MessagingPlan::Direct(
                            DirectAction::Publish { subject, payload },
                        ) && subject@ == rsubj && payload == m.payload,
                    })),
                    Message::Wrpc(bm) => (r matches Ok(d) && d.dropped_content_type is None && (
                    d.plan matches MessagingPlan::Direct(DirectAction::Publish { subject, payload })
                        && subject@ == rsubj && payload == bm.body)),
                    Message::Guest(g) => (r matches Ok(d) && d.dropped_content_type
                        == g.content_type && (match g.metadata {
                        Some(meta) => d.plan matches MessagingPlan::Direct(
                            DirectAction::PublishWithHeaders { subject, headers, payload },
                        ) && subject@ == rsubj && headers == meta && payload == g.data,
                        None => d.plan matches MessagingPlan::Direct(
                            DirectAction::Publish { subject, payload },
                        ) && subject@ == rsubj && payload == g.data,
                    })),
                }))
                &&& (!direct ==> {
                    &&& (message matches Message::Host(m) && m.headers is Some ==> (r matches Err(
                        e,
                    ) && e is HeadersUnsupported))
                    &&& (message matches Message::Guest(g) && g.metadata is Some ==> (r matches Err(
                        e,
                    ) && e is MetadataUnsupported))
                    &&& (fallback_body_ok(message) && !has_reply_subject(*reply_to) ==> (r matches
                    Err(e) && reply_error_spec(*reply_to, e)))
                    &&& (fallback_body_ok(message) && has_reply_subject(*reply_to) ==> (r matches
                    Ok(d) && (d.plan matches MessagingPlan::Fallback(FallbackAction::Publish(bm))
                        && bm.subject@ == rsubj && bm.reply_to is None && (match message {
                        Message::Host(m) => bm.body == m.payload && d.dropped_content_type
                            is None,
                        Message::Wrpc(b0) => bm.body == b0.body && d.dropped_content_type is None,
                        Message::Guest(g) => bm.body == g.data && d.dropped_content_type
                            == g.content_type,
                    }))))
                })
            }),
    {
        let rr = request_reply_interface_name();
        let target = self.active_link(&rr);
        if self.messaging_links.contains(&target) {
            let subject: String = match reply_to {
                Message::Host(hm) => match &hm.reply {
                    Some(s) => s.clone(),
                    None => {
                        return Err(MessagingError::ReplyMissingHost);
                    },
                },
                Message::Wrpc(bm) => match &bm.reply_to {
                    Some(s) => s.clone(),
                    None => {
                        return Err(MessagingError::ReplyMissingRpc);
                    },
                },
                Message::Guest(_) => {
                    return Err(MessagingError::ReplyToGuest);
                },
            };
            match message {
                Message::Host(m) => {
                    let HostMessage { payload, headers, .. } = m;
                    match headers {
                        Some(h) => Ok(
                            MessagingDecision {
                                plan: MessagingPlan::Direct(
                                    DirectAction::PublishWithHeaders {
                                        subject,
                                        headers: h,
                                        payload,
                                    },
                                ),
                                dropped_content_type: None,
                            },
                        ),
                        None => Ok(
                            MessagingDecision {
                                plan: MessagingPlan::Direct(
                                    DirectAction::Publish { subject, payload },
                                ),
                                dropped_content_type: None,
                            },
                        ),
                    }
                },
                Message::Wrpc(bm) => Ok(
                    MessagingDecision {
                        plan: MessagingPlan::Direct(
                            DirectAction::Publish { subject, payload: bm.body },
                        ),
                        dropped_content_type: None,
                    },
                ),
                Message::Guest(g) => {
                    let GuestMessage { content_type, data, metadata } = g;
                    match metadata {
                        Some(meta) => Ok(
                            MessagingDecision {
                                plan: MessagingPlan::Direct(
                                    DirectAction::PublishWithHeaders {
                                        subject,
                                        headers: meta,
                                        payload: data,
                                    },
                                ),
                                dropped_content_type: content_type,
                            },
                        ),
                        None => Ok(
                            MessagingDecision {
                                plan: MessagingPlan::Direct(
                                    DirectAction::Publish { subject, payload: data },
                                ),
                                dropped_content_type: content_type,
                            },
                        ),
                    }
                },
            }
        } else {
            let (body, dropped): (Vec<u8>, Option<String>) = match message {
                Message::Host(m) => {
                    if m.headers.is_some() {
                        return Err(MessagingError::HeadersUnsupported);
                    }
                    (m.payload, None)
                },
                Message::Wrpc(bm) => (bm.body, None),
                Message::Guest(g) => {
                    if g.metadata.is_some() {
                        return Err(MessagingError::MetadataUnsupported);
                    }
                    (g.data, g.content_type)
                },
            };
            let subject: String = match reply_to {
                Message::Host(hm) => match &hm.reply {
                    Some(s) => s.clone(),
                    None => {
                        return Err(MessagingError::ReplyMissingHost);
                    },
                },
                Message::Wrpc(bm) => match &bm.reply_to {
                    Some(s) => s.clone(),
                    None => {
                        return Err(MessagingError::ReplyMissingRpc);
                    },
                },
                Message::Guest(_) => {
                    return Err(MessagingError::ReplyToGuest);
                },
            };
            Ok(
                MessagingDecision {
                    plan: MessagingPlan::Fallback(
                        FallbackAction::Publish(
                            BrokerMessage { subject, body, reply_to: None },
                        ),
                    ),
                    dropped_content_type: dropped,
                },
            )
        }
    }
}

/// A successful direct-backend request returns exactly one response
/// message, wrapped as a host-native message.
pub fn wrap_request_response(response: HostMessage) -> (r: Vec<Message>)
    ensures
        r@.len() == 1,
        r@[0] matches Message::Host(m) && m == response,
{
    let mut r: Vec<Message> = Vec::new();
    r.push(Message::Host(response));
    r
}

/// What the caller of a fallback `request` is told once the publish
/// completed: the generic RPC interface has no response channel, so a
/// delivered request is reported as succeeded-but-no-response-available —
/// an explicit error, not a silent empty result — and a failed publish
/// quotes the backend.
pub fn request_fallback_outcome(publish_result: Result<(), String>) -> (r: Result<
    Vec<Message>,
    MessagingError,
>)
    ensures
        r is Err,
        publish_result is Ok ==> (r matches Err(e) && e is NoResponseSupport),
        publish_result matches Err(m) ==> (r matches Err(e) && e matches MessagingError::Backend(s)
            && s == m),
{
    match publish_result {
        Ok(()) => Err(MessagingError::NoResponseSupport),
        Err(m) => Err(MessagingError::Backend(m)),
    }
}

/// Map a backend call's outcome into the facade's error space, quoting a
/// failure verbatim.
pub fn backend_outcome(result: Result<(), String>) -> (r: Result<(), MessagingError>)
    ensures
        r is Ok <==> result is Ok,
        result matches Err(m) ==> (r matches Err(e) && e matches MessagingError::Backend(s) && s
            == m),
{
    match result {
        Ok(()) => Ok(()),
        Err(m) => Err(MessagingError::Backend(m)),
    }
}

} // verus!
