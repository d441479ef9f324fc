use selectel_mks::error::MKSError;
use selectel_mks::json::{parse_json_text, Json};
use selectel_mks::kubeversion;
use selectel_mks::node;
use selectel_mks::task;
use selectel_mks::task::schemas::{Status as TaskStatus, Type as TaskType};

#[test]
fn list_kubeversions_body() {
    let body = String::from(
        "{\"kube_versions\": [\
           {\"version\": \"1.15.7\", \"is_default\": true},\
           {\"version\": \"1.16.4\", \"is_default\": false}\
         ]}",
    );
    let versions = kubeversion::api::parse_list_body(body).unwrap();
    assert_eq!(versions.len(), 2);
    assert_eq!(versions[0].version, "1.15.7");
    assert!(versions[0].is_default);
    assert_eq!(versions[1].version, "1.16.4");
    assert!(!versions[1].is_default);
}

#[test]
fn malformed_body_keeps_raw_text() {
    let raw = String::from("not json at all");
    match kubeversion::api::parse_list_body(raw.clone()) {
        Err(MKSError::DeserializeError(cause, body)) => {
            assert_eq!(cause, "malformed JSON text");
            assert_eq!(body, raw);
        }
        _ => panic!("expected DeserializeError"),
    }
}

#[test]
fn unexpected_shape_keeps_raw_text() {
    let raw = String::from("{\"kube_versions\": 7}");
    match kubeversion::api::parse_list_body(raw.clone()) {
        Err(MKSError::DeserializeError(cause, body)) => {
            assert_eq!(cause, "unexpected document structure");
            assert_eq!(body, raw);
        }
        _ => panic!("expected DeserializeError"),
    }
}

#[test]
fn node_body_with_null_and_extra_fields() {
    let body = String::from(
        "{\"node\": {\
           \"id\": \"n-1\",\
           \"created_at\": \"2020-02-19T15:37:06Z\",\
           \"updated_at\": null,\
           \"hostname\": \"host-1\",\
           \"ip\": \"198.51.100.10\",\
           \"nodegroup_id\": \"ng-1\",\
           \"unknown_field\": [1, 2, 3]\
         }}",
    );
    let node = node::api::parse_node_body(body).unwrap();
    assert_eq!(node.id, "n-1");
    assert_eq!(node.created_at, "2020-02-19T15:37:06Z");
    assert!(node.updated_at.is_none());
    assert_eq!(node.hostname, "host-1");
    assert_eq!(node.ip, "198.51.100.10");
    assert_eq!(node.nodegroup_id, "ng-1");
}

#[test]
fn missing_field_is_a_shape_error() {
    // No "hostname" field: the record does not decode.
    let raw = String::from(
        "{\"node\": {\
           \"id\": \"n-1\",\
           \"created_at\": \"2020-02-19T15:37:06Z\",\
           \"updated_at\": null,\
           \"ip\": \"198.51.100.10\",\
           \"nodegroup_id\": \"ng-1\"\
         }}",
    );
    match node::api::parse_node_body(raw.clone()) {
        Err(MKSError::DeserializeError(cause, body)) => {
            assert_eq!(cause, "unexpected document structure");
            assert_eq!(body, raw);
        }
        _ => panic!("expected DeserializeError"),
    }
}

#[test]
fn task_body_with_unknown_names_falls_back() {
    let body = String::from(
        "{\"task\": {\
           \"id\": \"t-1\",\
           \"started_at\": \"2020-02-19T15:37:06Z\",\
           \"updated_at\": \"2020-02-19T16:00:00Z\",\
           \"cluster_id\": \"c-1\",\
           \"status\": \"IN_PROGRESS\",\
           \"type\": \"SOMETHING_NEW\"\
         }}",
    );
    let t = task::api::parse_task_body(body).unwrap();
    assert_eq!(t.id, "t-1");
    assert_eq!(t.updated_at.as_deref(), Some("2020-02-19T16:00:00Z"));
    assert_eq!(t.status, TaskStatus::InProgress);
    // A type name added after this client was built degrades gracefully.
    assert_eq!(t.task_type, TaskType::Unknown);
}

#[test]
fn list_tasks_body() {
    let body = String::from(
        "{\"tasks\": [{\
           \"id\": \"t-1\",\
           \"started_at\": \"2020-02-19T15:37:06Z\",\
           \"updated_at\": null,\
           \"cluster_id\": \"c-1\",\
           \"status\": \"DONE\",\
           \"type\": \"CREATE_CLUSTER\"\
         }]}",
    );
    let tasks = task::api::parse_list_body(body).unwrap();
    assert_eq!(tasks.len(), 1);
    assert_eq!(tasks[0].status, TaskStatus::Done);
    assert_eq!(tasks[0].task_type, TaskType::CreateCluster);
}

#[test]
fn task_enum_names_round_trip() {
    assert_eq!(TaskStatus::parse(&TaskStatus::Done.api_name()), TaskStatus::Done);
    assert_eq!(TaskStatus::parse(&TaskStatus::Error.api_name()), TaskStatus::Error);
    assert_eq!(
        TaskType::parse(&TaskType::UpgradeMastersConfiguration.api_name()),
        TaskType::UpgradeMastersConfiguration
    );
    assert_eq!(TaskStatus::parse("whatever"), TaskStatus::Unknown);
}

#[test]
fn string_escapes_decode() {
    let body = String::from(
        "{\"kube_versions\": [{\"version\": \"a\\n\\t\\\"\\\\b \\u0041 \\uD834\\uDD1E\", \"is_default\": false}]}",
    );
    let versions = kubeversion::api::parse_list_body(body).unwrap();
    assert_eq!(versions[0].version, "a\n\t\"\\b A \u{1D11E}");
}

#[test]
fn number_grammar_edges() {
    // Whole document parsing through the generic parser.
    match parse_json_text("18446744073709551615") {
        Some(Json::UInt(n)) => assert_eq!(n, u64::MAX),
        _ => panic!("expected a number"),
    }
    // Above u64::MAX the text is refused.
    assert!(parse_json_text("18446744073709551616").is_none());
    // Leading zeros are refused.
    assert!(parse_json_text("01").is_none());
    // Trailing garbage is refused.
    assert!(parse_json_text("1 2").is_none());
    // Whitespace around a document is fine.
    assert!(matches!(parse_json_text(" \t\r\n 0 "), Some(Json::UInt(0))));
}
