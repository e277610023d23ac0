use serde_json::Value;
use service_control::discovery::{
    endpoint_document, endpoint_stats_document, info_document, metadata_document, ping_document,
    stats_document, ServiceStatsSnapshot, INFO_RESPONSE, PING_RESPONSE, STATS_RESPONSE,
};
use service_control::identity::{EndpointDescriptor, Metadata, ServiceIdentity};
use service_control::json::encode;
use service_control::stats::StatsRegistry;

const ID: &str = "adfa8cb7-0821-4e63-9dbd-92a27c30f083";
const STARTED: &str = "2023-09-18T19:01:45.47046416Z";

fn identity() -> ServiceIdentity {
    ServiceIdentity {
        name: "calculator".to_string(),
        id: ID.to_string(),
        version: "0.1.0".to_string(),
        description: "WebAssembly Calculator Service".to_string(),
        metadata: Metadata::new(),
    }
}

fn endpoint(name: &str) -> EndpointDescriptor {
    EndpointDescriptor {
        name: name.to_string(),
        subject: name.to_string(),
        queue_group: "q".to_string(),
    }
}

fn endpoints() -> Vec<EndpointDescriptor> {
    vec![endpoint("add"), endpoint("subtract"), endpoint("multiply")]
}

fn text(value: &Value) -> &str {
    value.as_str().expect("a JSON string")
}

fn keys(value: &Value) -> Vec<&str> {
    value.as_object().expect("a JSON object").keys().map(|k| k.as_str()).collect()
}

#[test]
fn response_types_are_the_protocol_names() {
    assert_eq!(PING_RESPONSE, "ping_response");
    assert_eq!(INFO_RESPONSE, "info_response");
    assert_eq!(STATS_RESPONSE, "stats_response");
}

#[test]
fn ping_document_has_exactly_the_identity_fields() {
    let doc = ping_document(&identity());
    assert_eq!(keys(&doc), vec!["id", "metadata", "name", "type", "version"]);
    assert_eq!(text(&doc["type"]), "ping_response");
    assert_eq!(text(&doc["name"]), "calculator");
    assert_eq!(text(&doc["id"]), ID);
    assert_eq!(text(&doc["version"]), "0.1.0");
    assert_eq!(doc["metadata"], Value::Object(serde_json::Map::new()));
}

#[test]
fn ping_document_encodes_to_the_expected_bytes() {
    let bytes = encode(&ping_document(&identity())).expect("encodable");
    let expected = format!(
        "{{\"id\":\"{}\",\"metadata\":{{}},\"name\":\"calculator\",\"type\":\"ping_response\",\"version\":\"0.1.0\"}}",
        ID
    );
    assert_eq!(String::from_utf8(bytes).unwrap(), expected);
}

#[test]
fn metadata_document_holds_every_key_once() {
    let mut metadata = Metadata::new();
    metadata.insert("region".to_string(), "eu".to_string());
    metadata.insert("tier".to_string(), "gold".to_string());
    metadata.insert("region".to_string(), "us".to_string());
    let doc = metadata_document(&metadata);
    assert_eq!(keys(&doc), vec!["region", "tier"]);
    assert_eq!(text(&doc["region"]), "us");
    assert_eq!(text(&doc["tier"]), "gold");
    let bytes = encode(&doc).unwrap();
    assert_eq!(String::from_utf8(bytes).unwrap(), "{\"region\":\"us\",\"tier\":\"gold\"}");
}

#[test]
fn metadata_clone_keeps_the_pairs() {
    let mut metadata = Metadata::new();
    metadata.insert("a".to_string(), "1".to_string());
    metadata.insert("b".to_string(), "2".to_string());
    let copy = metadata.clone();
    assert_eq!(copy.pairs, metadata.pairs);
    assert_eq!(copy.pairs.len(), 2);
}

#[test]
fn ping_document_carries_the_metadata() {
    let mut identity = identity();
    identity.metadata.insert("zone".to_string(), "a".to_string());
    let doc = ping_document(&identity);
    assert_eq!(text(&doc["metadata"]["zone"]), "a");
}

#[test]
fn endpoint_document_describes_the_endpoint() {
    let doc = endpoint_document(&EndpointDescriptor {
        name: "add".to_string(),
        subject: "calc.add".to_string(),
        queue_group: "workers".to_string(),
    });
    assert_eq!(keys(&doc), vec!["metadata", "name", "queueGroup", "subject"]);
    assert_eq!(text(&doc["name"]), "add");
    assert_eq!(text(&doc["subject"]), "calc.add");
    assert_eq!(text(&doc["queueGroup"]), "workers");
    assert_eq!(doc["metadata"], Value::Object(serde_json::Map::new()));
}

#[test]
fn info_document_lists_endpoints_in_registration_order() {
    let doc = info_document(&identity(), &endpoints());
    assert_eq!(
        keys(&doc),
        vec!["description", "endpoints", "id", "metadata", "name", "type", "version"]
    );
    assert_eq!(text(&doc["type"]), "info_response");
    assert_eq!(text(&doc["id"]), ID);
    assert_eq!(text(&doc["name"]), "calculator");
    assert_eq!(text(&doc["version"]), "0.1.0");
    assert_eq!(text(&doc["description"]), "WebAssembly Calculator Service");
    let listed = doc["endpoints"].as_array().unwrap();
    let names: Vec<&str> = listed.iter().map(|e| text(&e["name"])).collect();
    assert_eq!(names, vec!["add", "subtract", "multiply"]);
    for entry in listed {
        assert_eq!(text(&entry["subject"]), text(&entry["name"]));
        assert_eq!(text(&entry["queueGroup"]), "q");
    }
}

#[test]
fn info_document_without_endpoints_has_an_empty_list() {
    let doc = info_document(&identity(), &Vec::new());
    assert_eq!(doc["endpoints"], Value::Array(Vec::new()));
}

#[test]
fn endpoint_stats_document_reports_the_counters() {
    let mut registry = StatsRegistry::new(&endpoints());
    registry.record_invocation("add", true, None, 100).unwrap();
    registry.record_invocation("add", false, Some("division by zero".to_string()), 51).unwrap();
    let snapshot = registry.snapshot();
    let doc = endpoint_stats_document(&snapshot[0]);
    assert_eq!(
        keys(&doc),
        vec![
            "averageProcessingTime",
            "lastError",
            "name",
            "numErrors",
            "numRequests",
            "queueGroup",
            "subject",
            "totalProcessingTime"
        ]
    );
    assert_eq!(text(&doc["name"]), "add");
    assert_eq!(doc["numRequests"].as_u64(), Some(2));
    assert_eq!(doc["numErrors"].as_u64(), Some(1));
    assert_eq!(text(&doc["lastError"]), "division by zero");
    assert_eq!(doc["totalProcessingTime"].as_u64(), Some(151));
    assert_eq!(doc["averageProcessingTime"].as_u64(), Some(75));
    let untouched = endpoint_stats_document(&snapshot[1]);
    assert_eq!(untouched["lastError"], Value::Null);
    assert_eq!(untouched["numRequests"].as_u64(), Some(0));
    assert_eq!(untouched["averageProcessingTime"].as_u64(), Some(0));
}

#[test]
fn endpoint_stats_document_encodes_to_the_expected_bytes() {
    let mut registry = StatsRegistry::new(&vec![endpoint("add")]);
    registry.record_invocation("add", true, None, 7).unwrap();
    let bytes = encode(&endpoint_stats_document(&registry.snapshot()[0])).unwrap();
    assert_eq!(
        String::from_utf8(bytes).unwrap(),
        "{\"averageProcessingTime\":7,\"lastError\":null,\"name\":\"add\",\"numErrors\":0,\
         \"numRequests\":1,\"queueGroup\":\"q\",\"subject\":\"add\",\"totalProcessingTime\":7}"
    );
}

#[test]
fn numbers_up_to_the_largest_are_encoded_exactly() {
    let mut registry = StatsRegistry::new(&vec![endpoint("add")]);
    registry.record_invocation("add", true, None, u64::MAX).unwrap();
    let doc = endpoint_stats_document(&registry.snapshot()[0]);
    assert_eq!(doc["totalProcessingTime"].as_u64(), Some(u64::MAX));
    let bytes = encode(&doc).unwrap();
    assert!(String::from_utf8(bytes).unwrap().contains("\"totalProcessingTime\":18446744073709551615"));
}

#[test]
fn stats_document_reports_identity_start_and_statistics() {
    let mut registry = StatsRegistry::new(&endpoints());
    registry.record_invocation("multiply", false, Some("overflow".to_string()), 12).unwrap();
    let snapshot = ServiceStatsSnapshot::new(&identity(), registry.snapshot(), STARTED);
    assert_eq!(snapshot.endpoints().len(), 3);
    let doc = stats_document(&snapshot);
    assert_eq!(
        keys(&doc),
        vec!["endpoints", "id", "metadata", "name", "started", "type", "version"]
    );
    assert_eq!(text(&doc["type"]), "stats_response");
    assert_eq!(text(&doc["name"]), "calculator");
    assert_eq!(text(&doc["id"]), ID);
    assert_eq!(text(&doc["version"]), "0.1.0");
    assert_eq!(text(&doc["started"]), STARTED);
    let listed = doc["endpoints"].as_array().unwrap();
    let names: Vec<&str> = listed.iter().map(|e| text(&e["name"])).collect();
    assert_eq!(names, vec!["add", "subtract", "multiply"]);
    assert_eq!(listed[2]["numRequests"].as_u64(), Some(1));
    assert_eq!(listed[2]["numErrors"].as_u64(), Some(1));
    assert_eq!(text(&listed[2]["lastError"]), "overflow");
    assert_eq!(listed[0]["numRequests"].as_u64(), Some(0));
}

#[test]
fn encode_writes_text_with_escapes() {
    let mut metadata = Metadata::new();
    metadata.insert("quote".to_string(), "say \"hi\"\n".to_string());
    let bytes = encode(&metadata_document(&metadata)).unwrap();
    assert_eq!(String::from_utf8(bytes).unwrap(), "{\"quote\":\"say \\\"hi\\\"\\n\"}");
}

#[test]
fn snapshot_copies_identity_and_start() {
    let mut identity = identity();
    identity.metadata.insert("zone".to_string(), "a".to_string());
    let registry = StatsRegistry::new(&endpoints());
    let snapshot = ServiceStatsSnapshot::new(&identity, registry.snapshot(), STARTED);
    assert_eq!(snapshot.name(), "calculator");
    assert_eq!(snapshot.id(), ID);
    assert_eq!(snapshot.version(), "0.1.0");
    assert_eq!(snapshot.started(), STARTED);
    assert_eq!(snapshot.metadata().pairs, vec![("zone".to_string(), "a".to_string())]);
    let names: Vec<&str> = snapshot.endpoints().iter().map(|s| s.name().as_str()).collect();
    assert_eq!(names, vec!["add", "subtract", "multiply"]);
}
