//! The responder itself: what a service does with an inbound message, and
//! with the outcome of an endpoint invocation.
//!
//! The service never touches the transport and never runs a handler. It is
//! handed a message and answers with an [`Action`]: nothing to do, a message
//! to publish, or an endpoint to invoke. The caller invokes the handler,
//! measures how long it took and hands the outcome back.

use crate::discovery::{
    PING_RESPONSE,
    ServiceStatsSnapshot,
    ServiceStatsSnapshotView,
    endpoint_stats_json,
    endpoint_stats_jsons,
    info_document,
    info_json,
    lemma_stats_json_lists_every_entry,
    ping_document,
    ping_json,
    stats_document,
    stats_json,
};
use crate::identity::{
    EndpointDescriptor,
    EndpointDescriptorView,
    ServiceIdentity,
    ServiceIdentityView,
    descriptor_views,
};
use crate::json::{
    Json,
    encode,
    json_encoding,
    json_model,
    json_object,
    json_text,
    object_insert,
    object_new,
};
use crate::stats::{
    EndpointStatsView,
    Invocation,
    StatsRegistry,
    after,
    all_consistent,
    describes,
    lemma_after_keeps_registry,
};
use crate::subject::{
    CONTROL_PREFIX,
    ScopeView,
    Topic,
    TopicView,
    Verb,
    classify,
    command_subject,
    delimiter_free,
    lemma_command_subject_is_control,
    lemma_control_is_command_subject,
    scope_admits,
    split,
    topic_of,
};
use crate::text::{first_position, lemma_first_position_absent, lemma_first_position_found};
use vstd::prelude::*;

verus! {

/// A message as the transport delivers it.
pub struct Message {
    pub subject: String,
    pub reply_to: Option<String>,
    pub body: Vec<u8>,
}

/// A [`Message`] as plain values.
pub struct MessageView {
    pub subject: Seq<char>,
    pub reply_to: Option<Seq<char>>,
    pub body: Seq<u8>,
}

impl View for Message {
    type V = MessageView;

    open spec fn view(&self) -> MessageView {
        MessageView {
            subject: self.subject@,
            reply_to: self.reply_to.deep_view(),
            body: self.body@,
        }
    }
}

/// What the caller is to do next.
#[derive(Debug, PartialEq, Eq)]
pub enum Action {
    /// Nothing.
    Ignore,
    /// Publish `body` on `subject`.
    Publish { subject: String, body: Vec<u8> },
    /// Invoke the handler of the endpoint named `endpoint` on `body`, and
    /// hand its outcome, with `reply_to`, to [`Service::on_completion`].
    Invoke { endpoint: String, body: Vec<u8>, reply_to: Option<String> },
}

/// An [`Action`] as plain values.
pub enum ActionView {
    Ignore,
    Publish { subject: Seq<char>, body: Seq<u8> },
    Invoke { endpoint: Seq<char>, body: Seq<u8>, reply_to: Option<Seq<char>> },
}

impl View for Action {
    type V = ActionView;

    open spec fn view(&self) -> ActionView {
        match self {
            Action::Ignore => ActionView::Ignore,
            Action::Publish { subject, body } => ActionView::Publish {
                subject: subject@,
                body: body@,
            },
            Action::Invoke { endpoint, body, reply_to } => ActionView::Invoke {
                endpoint: endpoint@,
                body: body@,
                reply_to: reply_to.deep_view(),
            },
        }
    }
}

/// The action that sends `payload` to `reply_to`: a publish where both are
/// there, nothing otherwise.
pub open spec fn reply_action(reply_to: Option<Seq<char>>, payload: Option<Seq<u8>>) -> ActionView {
    match (reply_to, payload) {
        (Some(subject), Some(body)) => ActionView::Publish { subject, body },
        _ => ActionView::Ignore,
    }
}

/// The bytes of a list of bytes that may be missing.
pub open spec fn payload_view(payload: Option<Vec<u8>>) -> Option<Seq<u8>> {
    match payload {
        Some(bytes) => Some(bytes@),
        None => None,
    }
}

/// Sends `payload` to `reply_to`: a publish where both are there, nothing
/// otherwise.
pub fn reply(reply_to: Option<String>, payload: Option<Vec<u8>>) -> (action: Action)
    ensures
        action@ == reply_action(reply_to.deep_view(), payload_view(payload)),
{
    match (reply_to, payload) {
        (Some(subject), Some(body)) => Action::Publish { subject, body },
        _ => Action::Ignore,
    }
}

/// The document that tells a caller why its request failed.
pub open spec fn error_json(message: Seq<char>) -> Json {
    Json::Object(map!["error"@ => Json::Text(message)])
}

/// Builds the document that tells a caller why its request failed.
pub fn error_document(message: &str) -> (doc: serde_json::Value)
    ensures
        json_model(doc) == error_json(message@),
{
    let mut object = object_new();
    object_insert(&mut object, "error", json_text(message));
    json_object(object)
}

/// A service as plain values: who it is, its endpoints in registration
/// order, their statistics, and when it started.
pub struct ServiceView {
    pub identity: ServiceIdentityView,
    pub endpoints: Seq<EndpointDescriptorView>,
    pub stats: Seq<EndpointStatsView>,
    pub started: Seq<char>,
}

/// What holds of a service at all times: the registry has one consistent
/// entry for each endpoint, in registration order.
pub open spec fn well_formed(service: ServiceView) -> bool {
    &&& describes(service.stats, service.endpoints)
    &&& all_consistent(service.stats)
}

/// The subjects of the endpoints, in registration order.
pub open spec fn subjects(endpoints: Seq<EndpointDescriptorView>) -> Seq<Seq<char>> {
    endpoints.map_values(|endpoint: EndpointDescriptorView| endpoint.subject)
}

/// What the reply to `STATS` reports of a service.
pub open spec fn snapshot_of(service: ServiceView) -> ServiceStatsSnapshotView {
    ServiceStatsSnapshotView {
        name: service.identity.name,
        id: service.identity.id,
        version: service.identity.version,
        metadata: service.identity.metadata,
        endpoints: service.stats,
        started: service.started,
    }
}

/// The document that answers a discovery verb.
pub open spec fn discovery_json(service: ServiceView, verb: Verb) -> Json {
    match verb {
        Verb::Ping => ping_json(service.identity),
        Verb::Info => info_json(service.identity, service.endpoints),
        Verb::Stats => stats_json(snapshot_of(service)),
    }
}

/// What a service does with a business message: the first endpoint that
/// answers on exactly this subject is to be invoked; where there is none,
/// nothing happens.
pub open spec fn routed(service: ServiceView, message: MessageView) -> ActionView {
    match first_position(subjects(service.endpoints), message.subject) {
        Some(i) => ActionView::Invoke {
            endpoint: service.endpoints[i].name,
            body: message.body,
            reply_to: message.reply_to,
        },
        None => ActionView::Ignore,
    }
}

/// What a service does with an inbound message. A discovery command whose
/// scope addresses this instance is answered on the message's reply subject
/// with the verb's document; without a reply subject nothing is sent. A
/// business message is routed to its endpoint. Everything else is ignored.
pub open spec fn response(service: ServiceView, message: MessageView) -> ActionView {
    match topic_of(message.subject) {
        TopicView::Control { verb, scope } => if scope_admits(
            scope,
            service.identity.name,
            service.identity.id,
        ) {
            reply_action(message.reply_to, json_encoding(discovery_json(service, verb)))
        } else {
            ActionView::Ignore
        },
        TopicView::Business { .. } => routed(service, message),
        TopicView::Ignored => ActionView::Ignore,
    }
}

/// Whether `subject` is one of the three subjects that carry `verb` to the
/// instance `id` of the service `name`: the bare verb, the verb with the
/// name, the verb with the name and the id.
pub open spec fn addresses(subject: Seq<char>, verb: Verb, name: Seq<char>, id: Seq<char>) -> bool {
    ||| subject == command_subject(verb, ScopeView::All)
    ||| subject == command_subject(verb, ScopeView::Service { name })
    ||| subject == command_subject(verb, ScopeView::Instance { name, id })
}

/// A discovery verb that arrives on one of its three subjects for this
/// instance is answered with the verb's document, on the reply subject of
/// the message. This holds for a service whose name and id hold no
/// delimiter.
pub proof fn lemma_addressed_command_is_answered(
    service: ServiceView,
    message: MessageView,
    verb: Verb,
)
    requires
        delimiter_free(service.identity.name),
        delimiter_free(service.identity.id),
        addresses(message.subject, verb, service.identity.name, service.identity.id),
    ensures
        response(service, message) == reply_action(
            message.reply_to,
            json_encoding(discovery_json(service, verb)),
        ),
{
    let name = service.identity.name;
    let id = service.identity.id;
    lemma_command_subject_is_control(verb, ScopeView::All);
    lemma_command_subject_is_control(verb, ScopeView::Service { name });
    lemma_command_subject_is_control(verb, ScopeView::Instance { name, id });
}

/// A subject under the control prefix that is none of the three subjects of
/// any verb for this instance gets no reply and causes nothing else.
pub proof fn lemma_other_control_subject_is_ignored(service: ServiceView, message: MessageView)
    requires
        split(message.subject)[0] == CONTROL_PREFIX@,
        forall|verb: Verb|
            !addresses(message.subject, verb, service.identity.name, service.identity.id),
    ensures
        response(service, message) == ActionView::Ignore,
{
    lemma_control_is_command_subject(message.subject);
    if let TopicView::Control { verb, scope } = topic_of(message.subject) {
        if scope_admits(scope, service.identity.name, service.identity.id) {
            assert(addresses(message.subject, verb, service.identity.name, service.identity.id));
        }
    }
}

/// The reply to `PING` is an object whose `type` is `ping_response` and
/// whose `name` and `id` are those of the service.
pub proof fn lemma_ping_reply_names_the_service(identity: ServiceIdentityView)
    ensures
        PING_RESPONSE@ == "ping_response"@,
        ping_json(identity) matches Json::Object(members) && {
            &&& members.contains_key("type"@) && members["type"@] == Json::Text(PING_RESPONSE@)
            &&& members.contains_key("name"@) && members["name"@] == Json::Text(identity.name)
            &&& members.contains_key("id"@) && members["id"@] == Json::Text(identity.id)
        },
{
    reveal_strlit("type");
    reveal_strlit("name");
    reveal_strlit("id");
    reveal_strlit("version");
    reveal_strlit("metadata");
    assert("id"@.len() == 2 && "version"@.len() == 7 && "metadata"@.len() == 8);
    assert("type"@[0] != "name"@[0]);
}

/// What a service answers to `PING` and to `INFO` depends on its identity
/// and its endpoints alone: the same message gets the same reply, byte for
/// byte, whatever was recorded in between.
pub proof fn lemma_ping_and_info_ignore_statistics(
    first: ServiceView,
    second: ServiceView,
    message: MessageView,
)
    requires
        first.identity == second.identity,
        first.endpoints == second.endpoints,
        topic_of(message.subject) matches TopicView::Control { verb, .. } && verb != Verb::Stats,
    ensures
        response(first, message) == response(second, message),
{
}

/// From its start on, whatever invocations complete in whatever order, a
/// service keeps one statistics entry for each endpoint in registration
/// order, and every entry stays consistent.
pub proof fn lemma_completions_keep_well_formed(service: ServiceView, invocation: Invocation)
    requires
        well_formed(service),
    ensures
        well_formed(ServiceView { stats: after(service.stats, invocation), ..service }),
{
    lemma_after_keeps_registry(service.stats, service.endpoints, invocation);
}

/// The reply to `STATS` of a well-formed service lists its endpoints in
/// registration order: the entry at each position is that of the endpoint
/// registered at that position, under the endpoint's name, and counts no
/// more errors than requests.
pub proof fn lemma_stats_reply_follows_registration(service: ServiceView)
    requires
        well_formed(service),
    ensures
        discovery_json(service, Verb::Stats) matches Json::Object(members) && (
        members.contains_key("endpoints"@) && members["endpoints"@] == Json::Array(
            endpoint_stats_jsons(service.stats),
        )),
        endpoint_stats_jsons(service.stats).len() == service.endpoints.len(),
        forall|i: int|
            0 <= i < service.endpoints.len() ==> {
                &&& #[trigger] endpoint_stats_jsons(service.stats)[i] == endpoint_stats_json(
                    service.stats[i],
                )
                &&& service.stats[i].name == service.endpoints[i].name
                &&& service.stats[i].num_errors <= service.stats[i].num_requests
            },
{
    lemma_stats_json_lists_every_entry(snapshot_of(service));
}

/// The outcome of a handler as plain values.
pub open spec fn outcome_view(outcome: Result<Vec<u8>, String>) -> Result<Seq<u8>, Seq<char>> {
    match outcome {
        Ok(payload) => Ok(payload@),
        Err(message) => Err(message@),
    }
}

/// The invocation that is recorded for an outcome: a success, or a failure
/// with the handler's message.
pub open spec fn invocation_of(
    endpoint: Seq<char>,
    outcome: Result<Seq<u8>, Seq<char>>,
    duration_nanos: u64,
) -> Invocation {
    Invocation {
        endpoint_name: endpoint,
        succeeded: outcome is Ok,
        error_message: match outcome {
            Ok(_) => None,
            Err(message) => Some(message),
        },
        duration_nanos,
    }
}

/// What is sent back for an outcome: the handler's payload, or the error
/// document with the handler's message.
pub open spec fn completion_reply(
    reply_to: Option<Seq<char>>,
    outcome: Result<Seq<u8>, Seq<char>>,
) -> ActionView {
    match outcome {
        Ok(payload) => reply_action(reply_to, Some(payload)),
        Err(message) => reply_action(reply_to, json_encoding(error_json(message))),
    }
}

/// A service instance: its identity, its endpoints and their statistics.
pub struct Service {
    identity: ServiceIdentity,
    endpoints: Vec<EndpointDescriptor>,
    registry: StatsRegistry,
    started: String,
}

impl View for Service {
    type V = ServiceView;

    closed spec fn view(&self) -> ServiceView {
        ServiceView {
            identity: self.identity@,
            endpoints: descriptor_views(self.endpoints@),
            stats: self.registry@,
            started: self.started@,
        }
    }
}

impl Service {
    /// A service with the given identity and endpoints that started at
    /// `started`, an ISO-8601 timestamp. No invocation is recorded yet.
    pub fn new(identity: ServiceIdentity, endpoints: Vec<EndpointDescriptor>, started: String) -> (service:
        Service)
        ensures
            service@ == (ServiceView {
                identity: identity@,
                endpoints: descriptor_views(endpoints@),
                stats: crate::stats::fresh_registry(descriptor_views(endpoints@)),
                started: started@,
            }),
            well_formed(service@),
    {
        let registry = StatsRegistry::new(&endpoints);
        Service { identity, endpoints, registry, started }
    }

    /// The identity of the service.
    pub fn identity(&self) -> (identity: &ServiceIdentity)
        ensures
            identity@ == self@.identity,
    {
        &self.identity
    }

    /// The endpoints of the service, in registration order.
    pub fn endpoints(&self) -> (endpoints: &Vec<EndpointDescriptor>)
        ensures
            descriptor_views(endpoints@) == self@.endpoints,
    {
        &self.endpoints
    }

    /// When the service started.
    pub fn started(&self) -> (started: &String)
        ensures
            started@ == self@.started,
    {
        &self.started
    }

    /// A copy of what `STATS` reports now: the statistics in registration
    /// order, every entry consistent.
    pub fn snapshot(&self) -> (snapshot: ServiceStatsSnapshot)
        ensures
            snapshot@ == snapshot_of(self@),
            all_consistent(self@.stats),
    {
        ServiceStatsSnapshot::new(&self.identity, self.registry.snapshot(), self.started.as_str())
    }

    /// Builds the document that answers a discovery verb.
    pub fn discovery_document(&self, verb: Verb) -> (doc: serde_json::Value)
        ensures
            json_model(doc) == discovery_json(self@, verb),
    {
        match verb {
            Verb::Ping => ping_document(&self.identity),
            Verb::Info => info_document(&self.identity, &self.endpoints),
            Verb::Stats => stats_document(&self.snapshot()),
        }
    }

    /// Routes a business message: the first endpoint that answers on exactly
    /// the message's subject is to be invoked. Where there is none, nothing
    /// happens.
    pub fn route(&self, message: Message) -> (action: Action)
        ensures
            action@ == routed(self@, message@),
    {
        let mut i: usize = 0;
        while i < self.endpoints.len()
            invariant
                i <= self.endpoints.len(),
                forall|j: int| 0 <= j < i ==> (#[trigger] self.endpoints[j]).subject@ != message.subject@,
            decreases self.endpoints.len() - i,
        {
            if self.endpoints[i].subject == message.subject {
                proof {
                    lemma_first_position_found(
                        subjects(self@.endpoints),
                        message.subject@,
                        i as int,
                    );
                }
                return Action::Invoke {
                    endpoint: self.endpoints[i].name.clone(),
                    body: message.body,
                    reply_to: message.reply_to,
                };
            }
            i += 1;
        }
        proof {
            lemma_first_position_absent(subjects(self@.endpoints), message.subject@);
        }
        Action::Ignore
    }

    /// Decides what to do with an inbound message. The service itself does
    /// not change.
    pub fn on_message(&self, message: Message) -> (action: Action)
        ensures
            action@ == response(self@, message@),
    {
        match classify(message.subject.as_str()) {
            Topic::Control { verb, scope } => {
                if message.reply_to.is_some() && scope.admits(&self.identity.name, &self.identity.id) {
                    reply(message.reply_to, encode(&self.discovery_document(verb)))
                } else {
                    Action::Ignore
                }
            },
            Topic::Business { .. } => self.route(message),
            Topic::Ignored => Action::Ignore,
        }
    }

    /// Takes the outcome of an invocation that [`Service::on_message`] asked
    /// for. The invocation is recorded for the endpoint, as a failure with
    /// its message where the handler reported one; where the registry
    /// refuses it, the statistics stay as they were. Whatever was recorded,
    /// the handler's payload, or the error document with the handler's
    /// message, goes to `reply_to` where there is one.
    pub fn on_completion(
        &mut self,
        endpoint: &str,
        outcome: Result<Vec<u8>, String>,
        duration_nanos: u64,
        reply_to: Option<String>,
    ) -> (action: Action)
        ensures
            final(self)@ == (ServiceView {
                stats: after(
                    old(self)@.stats,
                    invocation_of(endpoint@, outcome_view(outcome), duration_nanos),
                ),
                ..old(self)@
            }),
            well_formed(old(self)@) ==> well_formed(final(self)@),
            action@ == completion_reply(reply_to.deep_view(), outcome_view(outcome)),
    {
        proof {
            if well_formed(self@) {
                lemma_after_keeps_registry(
                    self@.stats,
                    self@.endpoints,
                    invocation_of(endpoint@, outcome_view(outcome), duration_nanos),
                );
            }
        }
        match outcome {
            Ok(payload) => {
                let _ = self.registry.record_invocation(endpoint, true, None, duration_nanos);
                reply(reply_to, Some(payload))
            },
            Err(message) => {
                let payload = if reply_to.is_some() {
                    encode(&error_document(message.as_str()))
                } else {
                    None
                };
                let _ = self.registry.record_invocation(
                    endpoint,
                    false,
                    Some(message),
                    duration_nanos,
                );
                reply(reply_to, payload)
            },
        }
    }
}

} // verus!
