//! The discovery replies: the documents that answer `PING`, `INFO` and
//! `STATS`.

use crate::identity::{
    EndpointDescriptor,
    EndpointDescriptorView,
    Metadata,
    ServiceIdentity,
    ServiceIdentityView,
    descriptor_views,
    pairs_to_map,
};
use crate::json::{
    Json,
    json_array,
    json_model,
    json_models,
    json_null,
    json_number,
    json_object,
    json_text,
    object_insert,
    object_model,
    object_new,
};
use crate::stats::{EndpointStats, EndpointStatsView, stats_views};
use vstd::prelude::*;

verus! {

/// The `type` of the reply to `PING`.
pub const PING_RESPONSE: &'static str = "ping_response";

/// The `type` of the reply to `INFO`.
pub const INFO_RESPONSE: &'static str = "info_response";

/// The `type` of the reply to `STATS`.
pub const STATS_RESPONSE: &'static str = "stats_response";

/// A mapping from text to text as members of a JSON object.
pub open spec fn text_members(metadata: Map<Seq<char>, Seq<char>>) -> Map<Seq<char>, Json> {
    metadata.map_values(|value: Seq<char>| Json::Text(value))
}

/// Metadata as a JSON object: one text member for each key.
pub open spec fn metadata_json(metadata: Map<Seq<char>, Seq<char>>) -> Json {
    Json::Object(text_members(metadata))
}

/// The reply to `PING`.
pub open spec fn ping_json(identity: ServiceIdentityView) -> Json {
    Json::Object(
        map![
            "type"@ => Json::Text(PING_RESPONSE@),
            "name"@ => Json::Text(identity.name),
            "id"@ => Json::Text(identity.id),
            "version"@ => Json::Text(identity.version),
            "metadata"@ => metadata_json(identity.metadata),
        ],
    )
}

/// Builds metadata as a JSON object.
pub fn metadata_document(metadata: &Metadata) -> (doc: serde_json::Value)
    ensures
        json_model(doc) == metadata_json(metadata@),
{
    let mut object = object_new();
    let mut i: usize = 0;
    while i < metadata.pairs.len()
        invariant
            i <= metadata.pairs.len(),
            object_model(object) == text_members(
                pairs_to_map(metadata.pairs.deep_view().take(i as int)),
            ),
        decreases metadata.pairs.len() - i,
    {
        let pair = &metadata.pairs[i];
        object_insert(&mut object, pair.0.as_str(), json_text(pair.1.as_str()));
        proof {
            let pairs = metadata.pairs.deep_view();
            assert(pairs.take(i + 1).drop_last() == pairs.take(i as int));
        }
        i += 1;
    }
    assert(metadata.pairs.deep_view().take(i as int) == metadata.pairs.deep_view());
    json_object(object)
}

/// Builds the reply to `PING`.
pub fn ping_document(identity: &ServiceIdentity) -> (doc: serde_json::Value)
    ensures
        json_model(doc) == ping_json(identity@),
{
    let mut object = object_new();
    object_insert(&mut object, "type", json_text(PING_RESPONSE));
    object_insert(&mut object, "name", json_text(identity.name.as_str()));
    object_insert(&mut object, "id", json_text(identity.id.as_str()));
    object_insert(&mut object, "version", json_text(identity.version.as_str()));
    object_insert(&mut object, "metadata", metadata_document(&identity.metadata));
    json_object(object)
}

/// One endpoint as the reply to `INFO` lists it. Its own metadata is empty.
pub open spec fn endpoint_json(endpoint: EndpointDescriptorView) -> Json {
    Json::Object(
        map![
            "name"@ => Json::Text(endpoint.name),
            "subject"@ => Json::Text(endpoint.subject),
            "queueGroup"@ => Json::Text(endpoint.queue_group),
            "metadata"@ => metadata_json(Map::empty()),
        ],
    )
}

/// The endpoints as the reply to `INFO` lists them, in registration order.
pub open spec fn endpoint_jsons(endpoints: Seq<EndpointDescriptorView>) -> Seq<Json> {
    endpoints.map_values(|endpoint: EndpointDescriptorView| endpoint_json(endpoint))
}

/// The reply to `INFO`: the identity, the description and one entry for each
/// registered endpoint.
pub open spec fn info_json(
    identity: ServiceIdentityView,
    endpoints: Seq<EndpointDescriptorView>,
) -> Json {
    Json::Object(
        map![
            "type"@ => Json::Text(INFO_RESPONSE@),
            "id"@ => Json::Text(identity.id),
            "name"@ => Json::Text(identity.name),
            "version"@ => Json::Text(identity.version),
            "metadata"@ => metadata_json(identity.metadata),
            "description"@ => Json::Text(identity.description),
            "endpoints"@ => Json::Array(endpoint_jsons(endpoints)),
        ],
    )
}

/// Builds the entry of one endpoint in the reply to `INFO`.
pub fn endpoint_document(endpoint: &EndpointDescriptor) -> (doc: serde_json::Value)
    ensures
        json_model(doc) == endpoint_json(endpoint@),
{
    let mut object = object_new();
    object_insert(&mut object, "name", json_text(endpoint.name.as_str()));
    object_insert(&mut object, "subject", json_text(endpoint.subject.as_str()));
    object_insert(&mut object, "queueGroup", json_text(endpoint.queue_group.as_str()));
    object_insert(&mut object, "metadata", metadata_document(&Metadata::new()));
    json_object(object)
}

/// Builds the reply to `INFO`.
pub fn info_document(identity: &ServiceIdentity, endpoints: &Vec<EndpointDescriptor>) -> (doc:
    serde_json::Value)
    ensures
        json_model(doc) == info_json(identity@, descriptor_views(endpoints@)),
{
    let mut entries: Vec<serde_json::Value> = Vec::new();
    let mut i: usize = 0;
    while i < endpoints.len()
        invariant
            i <= endpoints.len(),
            entries@.len() == i,
            forall|j: int| 0 <= j < i ==> json_model(#[trigger] entries@[j]) == endpoint_json(endpoints@[j]@),
        decreases endpoints.len() - i,
    {
        entries.push(endpoint_document(&endpoints[i]));
        i += 1;
    }
    assert(json_models(entries@) == endpoint_jsons(descriptor_views(endpoints@)));
    let mut object = object_new();
    object_insert(&mut object, "type", json_text(INFO_RESPONSE));
    object_insert(&mut object, "id", json_text(identity.id.as_str()));
    object_insert(&mut object, "name", json_text(identity.name.as_str()));
    object_insert(&mut object, "version", json_text(identity.version.as_str()));
    object_insert(&mut object, "metadata", metadata_document(&identity.metadata));
    object_insert(&mut object, "description", json_text(identity.description.as_str()));
    object_insert(&mut object, "endpoints", json_array(entries));
    json_object(object)
}

/// A point-in-time copy of what the reply to `STATS` reports.
pub struct ServiceStatsSnapshot {
    name: String,
    id: String,
    version: String,
    metadata: Metadata,
    endpoints: Vec<EndpointStats>,
    started: String,
}

/// A [`ServiceStatsSnapshot`] as plain values.
pub struct ServiceStatsSnapshotView {
    pub name: Seq<char>,
    pub id: Seq<char>,
    pub version: Seq<char>,
    pub metadata: Map<Seq<char>, Seq<char>>,
    pub endpoints: Seq<EndpointStatsView>,
    pub started: Seq<char>,
}

impl View for ServiceStatsSnapshot {
    type V = ServiceStatsSnapshotView;

    closed spec fn view(&self) -> ServiceStatsSnapshotView {
        ServiceStatsSnapshotView {
            name: self.name@,
            id: self.id@,
            version: self.version@,
            metadata: self.metadata@,
            endpoints: stats_views(self.endpoints@),
            started: self.started@,
        }
    }
}

impl ServiceStatsSnapshot {
    /// A snapshot of the given identity and statistics, with the time at
    /// which the service started.
    pub fn new(identity: &ServiceIdentity, endpoints: Vec<EndpointStats>, started: &str) -> (snapshot:
        ServiceStatsSnapshot)
        ensures
            snapshot@ == (ServiceStatsSnapshotView {
                name: identity@.name,
                id: identity@.id,
                version: identity@.version,
                metadata: identity@.metadata,
                endpoints: stats_views(endpoints@),
                started: started@,
            }),
    {
        ServiceStatsSnapshot {
            name: identity.name.clone(),
            id: identity.id.clone(),
            version: identity.version.clone(),
            metadata: identity.metadata.clone(),
            endpoints,
            started: started.to_owned(),
        }
    }

    /// The name of the service.
    pub fn name(&self) -> (name: &String)
        ensures
            name@ == self@.name,
    {
        &self.name
    }

    /// The id of the instance.
    pub fn id(&self) -> (id: &String)
        ensures
            id@ == self@.id,
    {
        &self.id
    }

    /// The version of the service.
    pub fn version(&self) -> (version: &String)
        ensures
            version@ == self@.version,
    {
        &self.version
    }

    /// The metadata of the service.
    pub fn metadata(&self) -> (metadata: &Metadata)
        ensures
            metadata@ == self@.metadata,
    {
        &self.metadata
    }

    /// When the service started.
    pub fn started(&self) -> (started: &String)
        ensures
            started@ == self@.started,
    {
        &self.started
    }

    /// The statistics of the endpoints, in registration order.
    pub fn endpoints(&self) -> (endpoints: &Vec<EndpointStats>)
        ensures
            stats_views(endpoints@) == self@.endpoints,
    {
        &self.endpoints
    }
}

/// The statistics of one endpoint as the reply to `STATS` lists them.
pub open spec fn endpoint_stats_json(stats: EndpointStatsView) -> Json {
    Json::Object(
        map![
            "name"@ => Json::Text(stats.name),
            "subject"@ => Json::Text(stats.subject),
            "queueGroup"@ => Json::Text(stats.queue_group),
            "numRequests"@ => Json::Number(stats.num_requests),
            "numErrors"@ => Json::Number(stats.num_errors),
            "lastError"@ => match stats.last_error {
                Some(message) => Json::Text(message),
                None => Json::Null,
            },
            "totalProcessingTime"@ => Json::Number(stats.total_processing_time),
            "averageProcessingTime"@ => Json::Number(stats.average_processing_time),
        ],
    )
}

/// The statistics of the endpoints as the reply to `STATS` lists them, in
/// registration order.
pub open spec fn endpoint_stats_jsons(endpoints: Seq<EndpointStatsView>) -> Seq<Json> {
    endpoints.map_values(|stats: EndpointStatsView| endpoint_stats_json(stats))
}

/// The reply to `STATS`.
pub open spec fn stats_json(snapshot: ServiceStatsSnapshotView) -> Json {
    Json::Object(
        map![
            "type"@ => Json::Text(STATS_RESPONSE@),
            "name"@ => Json::Text(snapshot.name),
            "id"@ => Json::Text(snapshot.id),
            "version"@ => Json::Text(snapshot.version),
            "metadata"@ => metadata_json(snapshot.metadata),
            "endpoints"@ => Json::Array(endpoint_stats_jsons(snapshot.endpoints)),
            "started"@ => Json::Text(snapshot.started),
        ],
    )
}

/// The entry of an endpoint in the reply to `STATS` names the endpoint and
/// reports its two counters.
pub proof fn lemma_endpoint_stats_json_members(stats: EndpointStatsView)
    ensures
        endpoint_stats_json(stats) matches Json::Object(members) && {
            &&& members.contains_key("name"@) && members["name"@] == Json::Text(stats.name)
            &&& members.contains_key("numRequests"@) && members["numRequests"@] == Json::Number(
                stats.num_requests,
            )
            &&& members.contains_key("numErrors"@) && members["numErrors"@] == Json::Number(
                stats.num_errors,
            )
        },
{
    reveal_strlit("name");
    reveal_strlit("subject");
    reveal_strlit("queueGroup");
    reveal_strlit("numRequests");
    reveal_strlit("numErrors");
    reveal_strlit("lastError");
    reveal_strlit("totalProcessingTime");
    reveal_strlit("averageProcessingTime");
    assert("name"@.len() == 4 && "subject"@.len() == 7 && "queueGroup"@.len() == 10);
    assert("numRequests"@.len() == 11 && "numErrors"@.len() == 9 && "lastError"@.len() == 9);
    assert("totalProcessingTime"@.len() == 19 && "averageProcessingTime"@.len() == 21);
    assert("numErrors"@[0] != "lastError"@[0]);
}

/// The reply to `STATS` lists one entry for each entry of the snapshot, in
/// the same order.
pub proof fn lemma_stats_json_lists_every_entry(snapshot: ServiceStatsSnapshotView)
    ensures
        stats_json(snapshot) matches Json::Object(members) && (members.contains_key("endpoints"@)
            && members["endpoints"@] == Json::Array(endpoint_stats_jsons(snapshot.endpoints))),
        endpoint_stats_jsons(snapshot.endpoints).len() == snapshot.endpoints.len(),
        forall|i: int|
            0 <= i < snapshot.endpoints.len() ==> #[trigger] endpoint_stats_jsons(
                snapshot.endpoints,
            )[i] == endpoint_stats_json(snapshot.endpoints[i]),
{
    reveal_strlit("endpoints");
    reveal_strlit("started");
    assert("endpoints"@[0] != "started"@[0]);
}

/// Builds the entry of one endpoint in the reply to `STATS`.
pub fn endpoint_stats_document(stats: &EndpointStats) -> (doc: serde_json::Value)
    ensures
        json_model(doc) == endpoint_stats_json(stats@),
{
    let last_error = match stats.last_error() {
        Some(message) => json_text(message.as_str()),
        None => json_null(),
    };
    let mut object = object_new();
    object_insert(&mut object, "name", json_text(stats.name().as_str()));
    object_insert(&mut object, "subject", json_text(stats.subject().as_str()));
    object_insert(&mut object, "queueGroup", json_text(stats.queue_group().as_str()));
    object_insert(&mut object, "numRequests", json_number(stats.num_requests()));
    object_insert(&mut object, "numErrors", json_number(stats.num_errors()));
    object_insert(&mut object, "lastError", last_error);
    object_insert(&mut object, "totalProcessingTime", json_number(stats.total_processing_time()));
    object_insert(
        &mut object,
        "averageProcessingTime",
        json_number(stats.average_processing_time()),
    );
    json_object(object)
}

/// Builds the reply to `STATS` from a snapshot.
pub fn stats_document(snapshot: &ServiceStatsSnapshot) -> (doc: serde_json::Value)
    ensures
        json_model(doc) == stats_json(snapshot@),
{
    let mut entries: Vec<serde_json::Value> = Vec::new();
    let mut i: usize = 0;
    while i < snapshot.endpoints.len()
        invariant
            i <= snapshot.endpoints.len(),
            entries@.len() == i,
            forall|j: int| 0 <= j < i ==> json_model(#[trigger] entries@[j]) == endpoint_stats_json(snapshot.endpoints@[j]@),
        decreases snapshot.endpoints.len() - i,
    {
        entries.push(endpoint_stats_document(&snapshot.endpoints[i]));
        i += 1;
    }
    assert(json_models(entries@) == endpoint_stats_jsons(stats_views(snapshot.endpoints@)));
    let mut object = object_new();
    object_insert(&mut object, "type", json_text(STATS_RESPONSE));
    object_insert(&mut object, "name", json_text(snapshot.name.as_str()));
    object_insert(&mut object, "id", json_text(snapshot.id.as_str()));
    object_insert(&mut object, "version", json_text(snapshot.version.as_str()));
    object_insert(&mut object, "metadata", metadata_document(&snapshot.metadata));
    object_insert(&mut object, "endpoints", json_array(entries));
    object_insert(&mut object, "started", json_text(snapshot.started.as_str()));
    json_object(object)
}

} // verus!
