use selectel_mks::cluster;
use selectel_mks::cluster::schemas::{CreateOptsRoot, KubernetesOptions, Status};
use selectel_mks::nodegroup;
use selectel_mks::{Client, Method};

fn client() -> Client {
    Client::new("https://example.org", "token_a").unwrap()
}

#[test]
fn nodegroup_create_body_is_exact() {
    let opts = nodegroup::schemas::CreateOpts::new(2, false, String::from("ru-3a"))
        .with_cpus(1)
        .with_ram_mb(1024)
        .with_volume_gb(10)
        .with_volume_type(String::from("fast.ru-3a"));
    let root = nodegroup::schemas::CreateOptsRoot { nodegroup: opts };
    assert_eq!(
        root.body(),
        "{\"nodegroup\":{\"count\":2,\"flavor_id\":null,\"cpus\":1,\"ram_mb\":1024,\
         \"volume_gb\":10,\"volume_type\":\"fast.ru-3a\",\"local_volume\":false,\
         \"keypair_name\":null,\"affinity_policy\":null,\"availability_zone\":\"ru-3a\",\
         \"labels\":null}}"
    );
}

#[test]
fn nodegroup_labels_render_in_order() {
    let labels = vec![
        (String::from("a"), String::from("b")),
        (String::from("key-2"), String::from("v2")),
    ];
    let opts = nodegroup::schemas::CreateOpts::new(1, true, String::from("ru-3a"))
        .with_labels(labels);
    let root = nodegroup::schemas::CreateOptsRoot { nodegroup: opts };
    let body = root.body();
    assert!(body.contains("\"labels\":{\"a\":\"b\",\"key-2\":\"v2\"}"));
    assert!(body.contains("\"local_volume\":true"));
}

#[test]
fn nodegroup_resize_and_update_requests() {
    let c = client();
    let resize = nodegroup::api::resize_request(
        &c,
        "cid",
        "ngid",
        &nodegroup::schemas::ResizeOpts::new(3),
    )
    .unwrap();
    assert_eq!(resize.method, Method::Post);
    assert_eq!(resize.uri, "https://example.org/v1/clusters/cid/nodegroups/ngid/resize");
    assert_eq!(
        resize.body.as_deref(),
        Some("{\"nodegroup\":{\"desired\":3}}")
    );

    let labels = vec![(String::from("a"), String::from("b"))];
    let update = nodegroup::api::update_request(
        &c,
        "cid",
        "ngid",
        &nodegroup::schemas::UpdateOpts::new().with_labels(labels),
    )
    .unwrap();
    assert_eq!(update.method, Method::Put);
    assert_eq!(update.uri, "https://example.org/v1/clusters/cid/nodegroups/ngid");
    assert_eq!(
        update.body.as_deref(),
        Some("{\"nodegroup\":{\"labels\":{\"a\":\"b\"}}}")
    );
}

#[test]
fn cluster_create_body_is_exact() {
    let opts = cluster::schemas::CreateOpts::new("cluster-crud", "1.15.7", "ru-3")
        .with_zonal(true)
        .with_kubernetes_options(KubernetesOptions { enable_pod_security_policy: true });
    let root = CreateOptsRoot { cluster: opts };
    assert_eq!(
        root.body(),
        "{\"cluster\":{\"name\":\"cluster-crud\",\"network_id\":null,\"subnet_id\":null,\
         \"kube_version\":\"1.15.7\",\"region\":\"ru-3\",\"nodegroups\":null,\
         \"maintenance_window_start\":null,\"enable_autorepair\":null,\
         \"enable_patch_version_auto_upgrade\":null,\"zonal\":true,\
         \"kubernetes_options\":{\"enable_pod_security_policy\":true}}}"
    );
}

#[test]
fn cluster_create_body_with_nodegroups() {
    let ng = nodegroup::schemas::CreateOpts::new(1, false, String::from("ru-3a")).with_cpus(1);
    let opts = cluster::schemas::CreateOpts::new("c", "1.15.7", "ru-3").with_nodegroups(vec![ng]);
    let req = cluster::api::create_cluster_request(&client(), &opts).unwrap();
    let body = req.body.unwrap();
    assert!(body.starts_with("{\"cluster\":{\"name\":\"c\","));
    assert!(body.contains("\"nodegroups\":[{\"count\":1,"));
    assert_eq!(req.uri, "https://example.org/v1/clusters");
    assert_eq!(req.method, Method::Post);
}

#[test]
fn resource_request_paths() {
    let c = client();
    let get = cluster::api::get_cluster_request(&c, "abc").unwrap();
    assert_eq!(get.uri, "https://example.org/v1/clusters/abc");
    assert_eq!(get.method, Method::Get);

    let del = cluster::api::delete_cluster_request(&c, "abc").unwrap();
    assert_eq!(del.method, Method::Delete);

    let kv = selectel_mks::kubeversion::api::list_request(&c).unwrap();
    assert_eq!(kv.uri, "https://example.org/v1/kubeversions");

    let node = selectel_mks::node::api::get_node_request(&c, "cid", "ngid", "nid").unwrap();
    assert_eq!(node.uri, "https://example.org/v1/clusters/cid/nodegroups/ngid/nid");

    let reinstall =
        selectel_mks::node::api::reinstall_node_request(&c, "cid", "ngid", "nid").unwrap();
    assert_eq!(
        reinstall.uri,
        "https://example.org/v1/clusters/cid/nodegroups/ngid/nid/reinstall"
    );
    assert_eq!(reinstall.method, Method::Post);

    let tasks = selectel_mks::task::api::list_request(&c, "cid").unwrap();
    assert_eq!(tasks.uri, "https://example.org/v1/clusters/cid/tasks");

    let task = selectel_mks::task::api::get_request(&c, "cid", "tid").unwrap();
    assert_eq!(task.uri, "https://example.org/v1/clusters/cid/tasks/tid");
}

#[test]
fn cluster_body_decodes() {
    let body = String::from(
        "{\"cluster\": {\
           \"id\": \"c-1\",\
           \"created_at\": \"2020-02-19T15:37:06Z\",\
           \"updated_at\": null,\
           \"name\": \"cluster-crud\",\
           \"status\": \"PENDING_CREATE\",\
           \"project_id\": \"p-1\",\
           \"network_id\": \"net-1\",\
           \"subnet_id\": \"sub-1\",\
           \"kube_api_ip\": \"198.51.100.1\",\
           \"kube_version\": \"1.15.7\",\
           \"region\": \"ru-3\",\
           \"pki_tree_updated_at\": null,\
           \"maintenance_window_start\": \"07:00:00\",\
           \"maintenance_window_end\": \"11:00:00\",\
           \"maintenance_last_start\": null,\
           \"enable_autorepair\": true,\
           \"enable_patch_version_auto_upgrade\": false,\
           \"zonal\": false,\
           \"kubernetes_options\": {\"enable_pod_security_policy\": true}\
         }}",
    );
    let c = cluster::api::parse_cluster_body(body).unwrap();
    assert_eq!(c.id, "c-1");
    assert_eq!(c.status, Status::PendingCreate);
    assert_eq!(c.maintenance_window_start.as_deref(), Some("07:00:00"));
    assert!(c.pki_tree_updated_at.is_none());
    assert!(c.enable_autorepair);
    assert!(!c.zonal);
    assert!(c.kubernetes_options.enable_pod_security_policy);
}

#[test]
fn nodegroup_body_decodes() {
    let body = String::from(
        "{\"nodegroup\": {\
           \"id\": \"ng-1\",\
           \"created_at\": \"2020-02-19T15:37:06Z\",\
           \"updated_at\": \"2020-02-20T10:00:00Z\",\
           \"cluster_id\": \"c-1\",\
           \"flavor_id\": \"flavor-1\",\
           \"volume_gb\": 10,\
           \"volume_type\": \"fast.ru-3a\",\
           \"local_volume\": false,\
           \"availability_zone\": \"ru-3a\",\
           \"nodes\": [{\
             \"id\": \"n-1\",\
             \"created_at\": \"2020-02-19T15:40:00Z\",\
             \"updated_at\": null,\
             \"hostname\": \"host-1\",\
             \"ip\": \"198.51.100.10\",\
             \"nodegroup_id\": \"ng-1\"\
           }],\
           \"labels\": {\"a\": \"b\"}\
         }}",
    );
    let ng = nodegroup::api::parse_nodegroup_body(body).unwrap();
    assert_eq!(ng.id, "ng-1");
    assert_eq!(ng.volume_gb, 10);
    assert_eq!(ng.nodes.len(), 1);
    assert_eq!(ng.nodes[0].hostname, "host-1");
    assert_eq!(ng.labels, vec![(String::from("a"), String::from("b"))]);
}

#[test]
fn list_clusters_body_decodes() {
    let body = String::from("{\"clusters\": []}");
    let clusters = cluster::api::parse_list_body(body).unwrap();
    assert!(clusters.is_empty());
}

#[test]
fn cluster_status_names_round_trip() {
    assert_eq!(Status::parse(&Status::Active.api_name()), Status::Active);
    assert_eq!(
        Status::parse(&Status::PendingUpgradeClusterConfiguration.api_name()),
        Status::PendingUpgradeClusterConfiguration
    );
    assert_eq!(Status::parse("SOMETHING_ELSE"), Status::Unknown);
}

#[test]
fn update_opts_default_has_no_labels() {
    let update = nodegroup::api::update_request(
        &client(),
        "cid",
        "ngid",
        &nodegroup::schemas::UpdateOpts::default(),
    )
    .unwrap();
    assert_eq!(
        update.body.as_deref(),
        Some("{\"nodegroup\":{\"labels\":null}}")
    );
}

#[test]
fn envelope_roots_carry_their_resource() {
    let body = String::from(
        "{\"node\": {\
           \"id\": \"n-1\",\
           \"created_at\": \"2020-02-19T15:37:06Z\",\
           \"updated_at\": null,\
           \"hostname\": \"host-1\",\
           \"ip\": \"198.51.100.10\",\
           \"nodegroup_id\": \"ng-1\"\
         }}",
    );
    let node = selectel_mks::node::api::parse_node_body(body).unwrap();
    let root = selectel_mks::node::schemas::NodeRoot { node };
    assert_eq!(root.node.id, "n-1");

    let clusters = cluster::api::parse_list_body(String::from("{\"clusters\": []}")).unwrap();
    let list = cluster::schemas::ListRoot { clusters };
    assert!(list.clusters.is_empty());

    let versions = selectel_mks::kubeversion::api::parse_list_body(String::from(
        "{\"kube_versions\": []}",
    ))
    .unwrap();
    let root = selectel_mks::kubeversion::schemas::KubeVersionsRoot { kube_versions: versions };
    assert!(root.kube_versions.is_empty());
}
