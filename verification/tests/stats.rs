use service_control::identity::EndpointDescriptor;
use service_control::stats::{EndpointStats, RecordError, StatsRegistry};

fn endpoint(name: &str) -> EndpointDescriptor {
    EndpointDescriptor {
        name: name.to_string(),
        subject: format!("calc.{}", name),
        queue_group: "q".to_string(),
    }
}

fn registry() -> StatsRegistry {
    StatsRegistry::new(&vec![endpoint("add"), endpoint("subtract"), endpoint("multiply")])
}

fn entry(registry: &StatsRegistry, index: usize) -> EndpointStats {
    registry.snapshot()[index].clone()
}

#[test]
fn fresh_registry_has_zeroed_entries_in_registration_order() {
    let snapshot = registry().snapshot();
    let names: Vec<&str> = snapshot.iter().map(|s| s.name().as_str()).collect();
    assert_eq!(names, vec!["add", "subtract", "multiply"]);
    for stats in &snapshot {
        assert_eq!(stats.num_requests(), 0);
        assert_eq!(stats.num_errors(), 0);
        assert_eq!(stats.last_error(), &None);
        assert_eq!(stats.total_processing_time(), 0);
        assert_eq!(stats.average_processing_time(), 0);
        assert_eq!(stats.queue_group(), "q");
    }
    assert_eq!(snapshot[1].subject(), "calc.subtract");
}

#[test]
fn endpoint_stats_new_copies_the_descriptor() {
    let stats = EndpointStats::new(&endpoint("add"));
    assert_eq!(stats.name(), "add");
    assert_eq!(stats.subject(), "calc.add");
    assert_eq!(stats.queue_group(), "q");
    assert_eq!(stats.num_requests(), 0);
}

#[test]
fn record_success_counts_request_and_time() {
    let mut registry = registry();
    assert_eq!(registry.record_invocation("add", true, None, 10), Ok(()));
    let add = entry(&registry, 0);
    assert_eq!(add.num_requests(), 1);
    assert_eq!(add.num_errors(), 0);
    assert_eq!(add.last_error(), &None);
    assert_eq!(add.total_processing_time(), 10);
    assert_eq!(add.average_processing_time(), 10);
    assert_eq!(entry(&registry, 1).num_requests(), 0);
    assert_eq!(entry(&registry, 2).num_requests(), 0);
}

#[test]
fn record_failure_counts_error_and_keeps_message() {
    let mut registry = registry();
    assert_eq!(
        registry.record_invocation("subtract", false, Some("boom".to_string()), 7),
        Ok(())
    );
    let subtract = entry(&registry, 1);
    assert_eq!(subtract.num_requests(), 1);
    assert_eq!(subtract.num_errors(), 1);
    assert_eq!(subtract.last_error(), &Some("boom".to_string()));
    assert_eq!(subtract.total_processing_time(), 7);
}

#[test]
fn average_is_total_divided_by_requests_rounded_down() {
    let mut registry = registry();
    registry.record_invocation("add", true, None, 10).unwrap();
    assert_eq!(entry(&registry, 0).average_processing_time(), 10);
    registry.record_invocation("add", true, None, 20).unwrap();
    assert_eq!(entry(&registry, 0).average_processing_time(), 15);
    registry.record_invocation("add", false, Some("e".to_string()), 31).unwrap();
    let add = entry(&registry, 0);
    assert_eq!(add.total_processing_time(), 61);
    assert_eq!(add.num_requests(), 3);
    assert_eq!(add.average_processing_time(), 20);
}

#[test]
fn last_error_is_overwritten_and_never_cleared() {
    let mut registry = registry();
    registry.record_invocation("add", false, Some("first".to_string()), 1).unwrap();
    registry.record_invocation("add", false, Some("second".to_string()), 1).unwrap();
    assert_eq!(entry(&registry, 0).last_error(), &Some("second".to_string()));
    registry.record_invocation("add", true, None, 1).unwrap();
    assert_eq!(entry(&registry, 0).last_error(), &Some("second".to_string()));
    registry.record_invocation("add", false, None, 1).unwrap();
    let add = entry(&registry, 0);
    assert_eq!(add.last_error(), &Some("second".to_string()));
    assert_eq!(add.num_errors(), 3);
    assert_eq!(add.num_requests(), 4);
}

#[test]
fn message_of_a_success_is_not_kept() {
    let mut registry = registry();
    registry.record_invocation("add", true, Some("ignored".to_string()), 1).unwrap();
    let add = entry(&registry, 0);
    assert_eq!(add.last_error(), &None);
    assert_eq!(add.num_errors(), 0);
}

#[test]
fn unknown_endpoint_is_refused_and_changes_nothing() {
    let mut registry = registry();
    assert_eq!(
        registry.record_invocation("divide", true, None, 5),
        Err(RecordError::UnknownEndpoint)
    );
    for stats in registry.snapshot() {
        assert_eq!(stats.num_requests(), 0);
        assert_eq!(stats.total_processing_time(), 0);
    }
}

#[test]
fn overflow_of_the_total_is_refused_and_changes_nothing() {
    let mut registry = registry();
    registry.record_invocation("add", true, None, u64::MAX).unwrap();
    assert_eq!(entry(&registry, 0).average_processing_time(), u64::MAX);
    assert_eq!(
        registry.record_invocation("add", false, Some("late".to_string()), 1),
        Err(RecordError::Overflow)
    );
    let add = entry(&registry, 0);
    assert_eq!(add.num_requests(), 1);
    assert_eq!(add.num_errors(), 0);
    assert_eq!(add.last_error(), &None);
    assert_eq!(add.total_processing_time(), u64::MAX);
    assert_eq!(registry.record_invocation("add", true, None, 0), Ok(()));
    assert_eq!(entry(&registry, 0).average_processing_time(), u64::MAX / 2);
}

#[test]
fn invocation_counts_for_the_first_endpoint_of_that_name() {
    let mut registry = StatsRegistry::new(&vec![endpoint("add"), endpoint("add")]);
    registry.record_invocation("add", true, None, 3).unwrap();
    assert_eq!(entry(&registry, 0).num_requests(), 1);
    assert_eq!(entry(&registry, 1).num_requests(), 0);
}

#[test]
fn errors_never_exceed_requests_in_any_order() {
    let mut registry = registry();
    let names = ["add", "multiply", "subtract", "add", "unknown", "multiply", "add"];
    for (step, name) in names.iter().enumerate() {
        let failed = step % 2 == 0;
        let message = if failed { Some(format!("failure {}", step)) } else { None };
        let _ = registry.record_invocation(name, !failed, message, 10 * step as u64 + 1);
        let snapshot = registry.snapshot();
        let order: Vec<&str> = snapshot.iter().map(|s| s.name().as_str()).collect();
        assert_eq!(order, vec!["add", "subtract", "multiply"]);
        for stats in &snapshot {
            assert!(stats.num_errors() <= stats.num_requests());
            let expected = if stats.num_requests() == 0 {
                0
            } else {
                stats.total_processing_time() / stats.num_requests()
            };
            assert_eq!(stats.average_processing_time(), expected);
        }
    }
    let add = entry(&registry, 0);
    assert_eq!((add.num_requests(), add.num_errors()), (3, 2));
    assert_eq!(add.last_error(), &Some("failure 6".to_string()));
}

#[test]
fn snapshot_is_a_copy() {
    let mut registry = registry();
    let before = registry.snapshot();
    registry.record_invocation("add", true, None, 9).unwrap();
    assert_eq!(before[0].num_requests(), 0);
    assert_eq!(registry.snapshot()[0].num_requests(), 1);
}
