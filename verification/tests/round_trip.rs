use selectel_mks::cluster;
use selectel_mks::cluster::schemas::{CreateOptsRoot, KubernetesOptions};
use selectel_mks::json::{parse_json_text, Json};
use selectel_mks::nodegroup;

fn sample_root() -> CreateOptsRoot {
    let ng = nodegroup::schemas::CreateOpts::new(2, false, String::from("ru-3a"))
        .with_cpus(1)
        .with_ram_mb(1024)
        .with_volume_gb(10)
        .with_volume_type(String::from("fast.ru-3a"))
        .with_labels(vec![(String::from("a"), String::from("b"))]);
    let opts = cluster::schemas::CreateOpts::new("cluster-crud", "1.15.7", "ru-3")
        .with_network_id("net-1")
        .with_subnet_id("sub-1")
        .with_nodegroups(vec![ng])
        .with_maintenance_window_start("07:00:00")
        .with_enable_autorepair(true)
        .with_enable_patch_version_auto_upgrade(false)
        .with_zonal(false)
        .with_kubernetes_options(KubernetesOptions { enable_pod_security_policy: true });
    CreateOptsRoot { cluster: opts }
}

/// The rendered create-options body is well-formed JSON whose field names
/// and value kinds line up with the fields of the cluster response record:
/// a serialized request stays structurally consistent with what the API
/// answers with, even though request and response schemas are distinct
/// types.
#[test]
fn create_opts_round_trip_against_response_shape() {
    let body = sample_root().body();

    // An independent JSON implementation accepts the rendered body.
    let value: serde_json::Value = serde_json::from_str(&body).unwrap();
    let cluster = value.get("cluster").unwrap();
    assert!(cluster.get("name").unwrap().is_string());
    assert!(cluster.get("network_id").unwrap().is_string());
    assert!(cluster.get("subnet_id").unwrap().is_string());
    assert!(cluster.get("kube_version").unwrap().is_string());
    assert!(cluster.get("region").unwrap().is_string());
    assert!(cluster.get("maintenance_window_start").unwrap().is_string());
    assert!(cluster.get("enable_autorepair").unwrap().is_boolean());
    assert!(cluster
        .get("enable_patch_version_auto_upgrade")
        .unwrap()
        .is_boolean());
    assert!(cluster.get("zonal").unwrap().is_boolean());
    assert!(cluster
        .get("kubernetes_options")
        .unwrap()
        .get("enable_pod_security_policy")
        .unwrap()
        .is_boolean());
    let nodegroups = cluster.get("nodegroups").unwrap().as_array().unwrap();
    assert_eq!(nodegroups.len(), 1);
    assert!(nodegroups[0].get("count").unwrap().is_u64());
    assert!(nodegroups[0].get("availability_zone").unwrap().is_string());

    // The library's own parser agrees with the independent one.
    let parsed = parse_json_text(&body).unwrap();
    let fields = match &parsed {
        Json::Obj(fields) => fields,
        _ => panic!("expected an object"),
    };
    assert_eq!(fields.len(), 1);
    assert_eq!(fields[0].0, "cluster");
    let inner = match &fields[0].1 {
        Json::Obj(inner) => inner,
        _ => panic!("expected an object"),
    };
    let names: Vec<&str> = inner.iter().map(|f| f.0.as_str()).collect();
    assert_eq!(
        names,
        vec![
            "name",
            "network_id",
            "subnet_id",
            "kube_version",
            "region",
            "nodegroups",
            "maintenance_window_start",
            "enable_autorepair",
            "enable_patch_version_auto_upgrade",
            "zonal",
            "kubernetes_options",
        ]
    );
}

/// The rendered body and serde_json agree on the escaped content of
/// strings.
#[test]
fn rendered_escapes_agree_with_serde_json() {
    let opts = cluster::schemas::CreateOpts::new("a\"b\\c\nd", "1.15.7", "ru-3");
    let body = CreateOptsRoot { cluster: opts }.body();
    let value: serde_json::Value = serde_json::from_str(&body).unwrap();
    assert_eq!(
        value.get("cluster").unwrap().get("name").unwrap().as_str(),
        Some("a\"b\\c\nd")
    );
    // The library's parser decodes the same text back.
    match parse_json_text(&body) {
        Some(Json::Obj(fields)) => match &fields[0].1 {
            Json::Obj(inner) => match &inner[0].1 {
                Json::Str(name) => assert_eq!(name, "a\"b\\c\nd"),
                _ => panic!("expected a string"),
            },
            _ => panic!("expected an object"),
        },
        _ => panic!("expected an object"),
    }
}
