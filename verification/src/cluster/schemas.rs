//! Schemas for cluster resources.

use vstd::prelude::*;
use vstd::string::{StrSliceExecFns, StringExecFns};

use crate::json::{
    append_bool, append_opt_bool, append_opt_string, append_quoted, bool_json, lookup, obj_lookup,
    opt_bool_json, opt_string_from_json, opt_string_json, opt_string_of_json, quoted, Json,
    JsonModel, items_model, lemma_items_model,
};
use crate::opt_text;
use crate::text::str_eq;
use super::super::nodegroup;
use nodegroup::schemas::{create_opts_json as nodegroup_opts_json, CreateOptsModel as NodegroupCreateOptsModel};

verus! {

/// Status represents an enum with various cluster statuses.
///
/// `Unknown` absorbs API values added after this client was built.
#[derive(Clone, Copy, PartialEq, Eq, Structural, Debug)]
pub enum Status {
    Active,
    PendingCreate,
    PendingUpdate,
    PendingUpgrade,
    PendingRotateCerts,
    PendingDelete,
    PendingResize,
    PendingNodeReinstall,
    PendingUpgradePatchVersion,
    PendingUpgradeMinorVersion,
    PendingUpdateNodegroup,
    PendingUpgradeMastersConfiguration,
    PendingUpgradeClusterConfiguration,
    Maintenance,
    Error,
    Unknown,
}

/// The wire name of a cluster status.
pub open spec fn status_text(s: Status) -> Seq<char> {
    match s {
        Status::Active => "ACTIVE"@,
        Status::PendingCreate => "PENDING_CREATE"@,
        Status::PendingUpdate => "PENDING_UPDATE"@,
        Status::PendingUpgrade => "PENDING_UPGRADE"@,
        Status::PendingRotateCerts => "PENDING_ROTATE_CERTS"@,
        Status::PendingDelete => "PENDING_DELETE"@,
        Status::PendingResize => "PENDING_RESIZE"@,
        Status::PendingNodeReinstall => "PENDING_NODE_REINSTALL"@,
        Status::PendingUpgradePatchVersion => "PENDING_UPGRADE_PATCH_VERSION"@,
        Status::PendingUpgradeMinorVersion => "PENDING_UPGRADE_MINOR_VERSION"@,
        Status::PendingUpdateNodegroup => "PENDING_UPDATE_NODEGROUP"@,
        Status::PendingUpgradeMastersConfiguration => "PENDING_UPGRADE_MASTERS_CONFIGURATION"@,
        Status::PendingUpgradeClusterConfiguration => "PENDING_UPGRADE_CLUSTER_CONFIGURATION"@,
        Status::Maintenance => "MAINTENANCE"@,
        Status::Error => "ERROR"@,
        Status::Unknown => "UNKNOWN"@,
    }
}

/// The cluster status a wire name denotes; names unknown to this client
/// fall back to `Unknown`.
pub open spec fn status_of_text(s: Seq<char>) -> Status {
    if s == "ACTIVE"@ {
        Status::Active
    } else if s == "PENDING_CREATE"@ {
        Status::PendingCreate
    } else if s == "PENDING_UPDATE"@ {
        Status::PendingUpdate
    } else if s == "PENDING_UPGRADE"@ {
        Status::PendingUpgrade
    } else if s == "PENDING_ROTATE_CERTS"@ {
        Status::PendingRotateCerts
    } else if s == "PENDING_DELETE"@ {
        Status::PendingDelete
    } else if s == "PENDING_RESIZE"@ {
        Status::PendingResize
    } else if s == "PENDING_NODE_REINSTALL"@ {
        Status::PendingNodeReinstall
    } else if s == "PENDING_UPGRADE_PATCH_VERSION"@ {
        Status::PendingUpgradePatchVersion
    } else if s == "PENDING_UPGRADE_MINOR_VERSION"@ {
        Status::PendingUpgradeMinorVersion
    } else if s == "PENDING_UPDATE_NODEGROUP"@ {
        Status::PendingUpdateNodegroup
    } else if s == "PENDING_UPGRADE_MASTERS_CONFIGURATION"@ {
        Status::PendingUpgradeMastersConfiguration
    } else if s == "PENDING_UPGRADE_CLUSTER_CONFIGURATION"@ {
        Status::PendingUpgradeClusterConfiguration
    } else if s == "MAINTENANCE"@ {
        Status::Maintenance
    } else if s == "ERROR"@ {
        Status::Error
    } else {
        Status::Unknown
    }
}

impl Status {
    /// The name this status has on the wire.
    pub fn api_name(&self) -> (r: String)
        ensures
            r@ == status_text(*self),
    {
        match self {
            Status::Active => String::from_str("ACTIVE"),
            Status::PendingCreate => String::from_str("PENDING_CREATE"),
            Status::PendingUpdate => String::from_str("PENDING_UPDATE"),
            Status::PendingUpgrade => String::from_str("PENDING_UPGRADE"),
            Status::PendingRotateCerts => String::from_str("PENDING_ROTATE_CERTS"),
            Status::PendingDelete => String::from_str("PENDING_DELETE"),
            Status::PendingResize => String::from_str("PENDING_RESIZE"),
            Status::PendingNodeReinstall => String::from_str("PENDING_NODE_REINSTALL"),
            Status::PendingUpgradePatchVersion => String::from_str("PENDING_UPGRADE_PATCH_VERSION"),
            Status::PendingUpgradeMinorVersion => String::from_str("PENDING_UPGRADE_MINOR_VERSION"),
            Status::PendingUpdateNodegroup => String::from_str("PENDING_UPDATE_NODEGROUP"),
            Status::PendingUpgradeMastersConfiguration => String::from_str(
                "PENDING_UPGRADE_MASTERS_CONFIGURATION",
            ),
            Status::PendingUpgradeClusterConfiguration => String::from_str(
                "PENDING_UPGRADE_CLUSTER_CONFIGURATION",
            ),
            Status::Maintenance => String::from_str("MAINTENANCE"),
            Status::Error => String::from_str("ERROR"),
            Status::Unknown => String::from_str("UNKNOWN"),
        }
    }

    /// The status a wire name denotes.
    pub fn parse(name: &str) -> (r: Status)
        ensures
            r == status_of_text(name@),
    {
        if str_eq(name, "ACTIVE") {
            Status::Active
        } else if str_eq(name, "PENDING_CREATE") {
            Status::PendingCreate
        } else if str_eq(name, "PENDING_UPDATE") {
            Status::PendingUpdate
        } else if str_eq(name, "PENDING_UPGRADE") {
            Status::PendingUpgrade
        } else if str_eq(name, "PENDING_ROTATE_CERTS") {
            Status::PendingRotateCerts
        } else if str_eq(name, "PENDING_DELETE") {
            Status::PendingDelete
        } else if str_eq(name, "PENDING_RESIZE") {
            Status::PendingResize
        } else if str_eq(name, "PENDING_NODE_REINSTALL") {
            Status::PendingNodeReinstall
        } else if str_eq(name, "PENDING_UPGRADE_PATCH_VERSION") {
            Status::PendingUpgradePatchVersion
        } else if str_eq(name, "PENDING_UPGRADE_MINOR_VERSION") {
            Status::PendingUpgradeMinorVersion
        } else if str_eq(name, "PENDING_UPDATE_NODEGROUP") {
            Status::PendingUpdateNodegroup
        } else if str_eq(name, "PENDING_UPGRADE_MASTERS_CONFIGURATION") {
            Status::PendingUpgradeMastersConfiguration
        } else if str_eq(name, "PENDING_UPGRADE_CLUSTER_CONFIGURATION") {
            Status::PendingUpgradeClusterConfiguration
        } else if str_eq(name, "MAINTENANCE") {
            Status::Maintenance
        } else if str_eq(name, "ERROR") {
            Status::Error
        } else {
            Status::Unknown
        }
    }
}

/// Writing a cluster status to its wire name and reading it back yields
/// the same status.
pub proof fn lemma_status_round_trip(s: Status)
    ensures
        status_of_text(status_text(s)) == s,
{
    broadcast use vstd::string::group_string_axioms;

    reveal_strlit("ACTIVE");
    reveal_strlit("PENDING_CREATE");
    reveal_strlit("PENDING_UPDATE");
    reveal_strlit("PENDING_UPGRADE");
    reveal_strlit("PENDING_ROTATE_CERTS");
    reveal_strlit("PENDING_DELETE");
    reveal_strlit("PENDING_RESIZE");
    reveal_strlit("PENDING_NODE_REINSTALL");
    reveal_strlit("PENDING_UPGRADE_PATCH_VERSION");
    reveal_strlit("PENDING_UPGRADE_MINOR_VERSION");
    reveal_strlit("PENDING_UPDATE_NODEGROUP");
    reveal_strlit("PENDING_UPGRADE_MASTERS_CONFIGURATION");
    reveal_strlit("PENDING_UPGRADE_CLUSTER_CONFIGURATION");
    reveal_strlit("MAINTENANCE");
    reveal_strlit("ERROR");
    reveal_strlit("UNKNOWN");
    assert(("ACTIVE"@).len() == 6);
    assert(("PENDING_CREATE"@).len() == 14);
    assert(("PENDING_UPDATE"@).len() == 14);
    assert(("PENDING_UPGRADE"@).len() == 15);
    assert(("PENDING_ROTATE_CERTS"@).len() == 20);
    assert(("PENDING_DELETE"@).len() == 14);
    assert(("PENDING_RESIZE"@).len() == 14);
    assert(("PENDING_NODE_REINSTALL"@).len() == 22);
    assert(("PENDING_UPGRADE_PATCH_VERSION"@).len() == 29);
    assert(("PENDING_UPGRADE_MINOR_VERSION"@).len() == 29);
    assert(("PENDING_UPDATE_NODEGROUP"@).len() == 24);
    assert(("PENDING_UPGRADE_MASTERS_CONFIGURATION"@).len() == 37);
    assert(("PENDING_UPGRADE_CLUSTER_CONFIGURATION"@).len() == 37);
    assert(("MAINTENANCE"@).len() == 11);
    assert(("ERROR"@).len() == 5);
    assert(("UNKNOWN"@).len() == 7);
    assert(("PENDING_CREATE"@)[8] == 'C');
    assert(("PENDING_UPDATE"@)[8] == 'U');
    assert(("PENDING_DELETE"@)[8] == 'D');
    assert(("PENDING_RESIZE"@)[8] == 'R');
    assert(("PENDING_UPGRADE_PATCH_VERSION"@)[16] == 'P');
    assert(("PENDING_UPGRADE_MINOR_VERSION"@)[16] == 'M');
    assert(("PENDING_UPGRADE_MASTERS_CONFIGURATION"@)[16] == 'M');
    assert(("PENDING_UPGRADE_CLUSTER_CONFIGURATION"@)[16] == 'C');
}

/// KubernetesOptions represents additional Kubernetes-related options
/// such as pod security policy, feature gates, etc.
pub struct KubernetesOptions {
    /// Flag that indicates if PodSecurityPolicy admission controller
    /// must be turned on or off.
    pub enable_pod_security_policy: bool,
}

/// The mathematical model of [`KubernetesOptions`].
pub struct KubernetesOptionsModel {
    pub enable_pod_security_policy: bool,
}

impl View for KubernetesOptions {
    type V = KubernetesOptionsModel;

    open spec fn view(&self) -> KubernetesOptionsModel {
        KubernetesOptionsModel { enable_pod_security_policy: self.enable_pod_security_policy }
    }
}

/// How Kubernetes options are written as JSON.
pub open spec fn kubernetes_options_json(o: KubernetesOptionsModel) -> Seq<char> {
    "{\"enable_pod_security_policy\":"@ + bool_json(o.enable_pod_security_policy) + "}"@
}

/// How optional Kubernetes options are written: `null`, or the object.
pub open spec fn opt_kubernetes_options_json(o: Option<KubernetesOptionsModel>) -> Seq<char> {
    match o {
        None => "null"@,
        Some(k) => kubernetes_options_json(k),
    }
}

/// The Kubernetes options a JSON value denotes, when it has the expected
/// shape.
pub open spec fn kubernetes_options_of_json(j: JsonModel) -> Option<KubernetesOptionsModel> {
    match j {
        JsonModel::Obj(fields) => match obj_lookup(fields, "enable_pod_security_policy"@) {
            Some(JsonModel::Bool(b)) => Some(KubernetesOptionsModel {
                enable_pod_security_policy: b,
            }),
            _ => None,
        },
        _ => None,
    }
}

/// Cluster represents a deserialized cluster body from an API response.
pub struct Cluster {
    /// Cluster identifier.
    pub id: String,
    /// Timestamp in UTC timezone of when the cluster has been created.
    pub created_at: String,
    /// Timestamp in UTC timezone of when the cluster has been updated.
    pub updated_at: Option<String>,
    /// Cluster name.
    pub name: String,
    /// Cluster status.
    pub status: Status,
    /// Project reference.
    pub project_id: String,
    /// Network reference.
    pub network_id: String,
    /// Subnet reference.
    pub subnet_id: String,
    /// IP of the Kubernetes API.
    pub kube_api_ip: String,
    /// Current Kubernetes version of the cluster.
    pub kube_version: String,
    /// Region of where the cluster is located.
    pub region: String,
    /// Timestamp in UTC timezone of when the PKI-tree of the cluster has
    /// been updated.
    pub pki_tree_updated_at: Option<String>,
    /// UTC time in "hh:mm:ss" format of when the cluster will start its
    /// maintenance tasks.
    pub maintenance_window_start: Option<String>,
    /// UTC time in "hh:mm:ss" format of when the cluster will end its
    /// maintenance tasks.
    pub maintenance_window_end: Option<String>,
    /// Timestamp in UTC timezone of the last cluster maintenance start.
    pub maintenance_last_start: Option<String>,
    /// Flag that indicates if worker nodes are allowed to be reinstalled
    /// automatically in case of their unavailability or unhealthiness.
    pub enable_autorepair: bool,
    /// Flag that indicates if Kubernetes patch version of the cluster is
    /// allowed to be upgraded automatically.
    pub enable_patch_version_auto_upgrade: bool,
    /// Flag that indicates that cluster has only a single master and that
    /// control-plane is not in highly available mode.
    pub zonal: bool,
    /// Additional Kubernetes-related options such as pod security policy,
    /// feature gates, etc.
    pub kubernetes_options: KubernetesOptions,
}

/// The mathematical model of a [`Cluster`].
pub struct ClusterModel {
    pub id: Seq<char>,
    pub created_at: Seq<char>,
    pub updated_at: Option<Seq<char>>,
    pub name: Seq<char>,
    pub status: Status,
    pub project_id: Seq<char>,
    pub network_id: Seq<char>,
    pub subnet_id: Seq<char>,
    pub kube_api_ip: Seq<char>,
    pub kube_version: Seq<char>,
    pub region: Seq<char>,
    pub pki_tree_updated_at: Option<Seq<char>>,
    pub maintenance_window_start: Option<Seq<char>>,
    pub maintenance_window_end: Option<Seq<char>>,
    pub maintenance_last_start: Option<Seq<char>>,
    pub enable_autorepair: bool,
    pub enable_patch_version_auto_upgrade: bool,
    pub zonal: bool,
    pub kubernetes_options: KubernetesOptionsModel,
}

impl View for Cluster {
    type V = ClusterModel;

    open spec fn view(&self) -> ClusterModel {
        ClusterModel {
            id: self.id@,
            created_at: self.created_at@,
            updated_at: opt_text(self.updated_at),
            name: self.name@,
            status: self.status,
            project_id: self.project_id@,
            network_id: self.network_id@,
            subnet_id: self.subnet_id@,
            kube_api_ip: self.kube_api_ip@,
            kube_version: self.kube_version@,
            region: self.region@,
            pki_tree_updated_at: opt_text(self.pki_tree_updated_at),
            maintenance_window_start: opt_text(self.maintenance_window_start),
            maintenance_window_end: opt_text(self.maintenance_window_end),
            maintenance_last_start: opt_text(self.maintenance_last_start),
            enable_autorepair: self.enable_autorepair,
            enable_patch_version_auto_upgrade: self.enable_patch_version_auto_upgrade,
            zonal: self.zonal,
            kubernetes_options: self.kubernetes_options@,
        }
    }
}

/// ClusterRoot represents a root of a deserialized cluster.
pub struct ClusterRoot {
    pub cluster: Cluster,
}

/// ListRoot represents a root of a list with deserialized clusters.
pub struct ListRoot {
    pub clusters: Vec<Cluster>,
}

/// The models of a sequence of cluster records.
pub open spec fn cluster_views(vs: Seq<Cluster>) -> Seq<ClusterModel> {
    Seq::new(vs.len(), |i: int| vs[i]@)
}

/// The cluster record a JSON value denotes, when it has the expected
/// shape.  The status must be a string; names unknown to this client fall
/// back to `Unknown`.
pub open spec fn cluster_of_json(j: JsonModel) -> Option<ClusterModel> {
    match j {
        JsonModel::Obj(fields) => {
            match (
                obj_lookup(fields, "id"@),
                obj_lookup(fields, "created_at"@),
                obj_lookup(fields, "updated_at"@),
                obj_lookup(fields, "name"@),
                obj_lookup(fields, "status"@),
                obj_lookup(fields, "project_id"@),
            ) {
                (
                    Some(JsonModel::Str(id)),
                    Some(JsonModel::Str(created_at)),
                    Some(updated),
                    Some(JsonModel::Str(name)),
                    Some(JsonModel::Str(status)),
                    Some(JsonModel::Str(project_id)),
                ) => {
                    match (
                        obj_lookup(fields, "network_id"@),
                        obj_lookup(fields, "subnet_id"@),
                        obj_lookup(fields, "kube_api_ip"@),
                        obj_lookup(fields, "kube_version"@),
                        obj_lookup(fields, "region"@),
                        obj_lookup(fields, "pki_tree_updated_at"@),
                    ) {
                        (
                            Some(JsonModel::Str(network_id)),
                            Some(JsonModel::Str(subnet_id)),
                            Some(JsonModel::Str(kube_api_ip)),
                            Some(JsonModel::Str(kube_version)),
                            Some(JsonModel::Str(region)),
                            Some(pki_tree),
                        ) => {
                            match (
                                obj_lookup(fields, "maintenance_window_start"@),
                                obj_lookup(fields, "maintenance_window_end"@),
                                obj_lookup(fields, "maintenance_last_start"@),
                                obj_lookup(fields, "enable_autorepair"@),
                                obj_lookup(fields, "enable_patch_version_auto_upgrade"@),
                                obj_lookup(fields, "zonal"@),
                                obj_lookup(fields, "kubernetes_options"@),
                            ) {
                                (
                                    Some(window_start),
                                    Some(window_end),
                                    Some(last_start),
                                    Some(JsonModel::Bool(enable_autorepair)),
                                    Some(JsonModel::Bool(enable_patch_version_auto_upgrade)),
                                    Some(JsonModel::Bool(zonal)),
                                    Some(kube_opts),
                                ) => {
                                    match (
                                        opt_string_of_json(updated),
                                        opt_string_of_json(pki_tree),
                                        opt_string_of_json(window_start),
                                        opt_string_of_json(window_end),
                                        opt_string_of_json(last_start),
                                        kubernetes_options_of_json(kube_opts),
                                    ) {
                                        (
                                            Some(updated_at),
                                            Some(pki_tree_updated_at),
                                            Some(maintenance_window_start),
                                            Some(maintenance_window_end),
                                            Some(maintenance_last_start),
                                            Some(kubernetes_options),
                                        ) => Some(
                                            ClusterModel {
                                                id,
                                                created_at,
                                                updated_at,
                                                name,
                                                status: status_of_text(status),
                                                project_id,
                                                network_id,
                                                subnet_id,
                                                kube_api_ip,
                                                kube_version,
                                                region,
                                                pki_tree_updated_at,
                                                maintenance_window_start,
                                                maintenance_window_end,
                                                maintenance_last_start,
                                                enable_autorepair,
                                                enable_patch_version_auto_upgrade,
                                                zonal,
                                                kubernetes_options,
                                            },
                                        ),
                                        _ => None,
                                    }
                                },
                                _ => None,
                            }
                        },
                        _ => None,
                    }
                },
                _ => None,
            }
        },
        _ => None,
    }
}

/// Decode one cluster record from a JSON value.
#[verifier::rlimit(60)]
pub fn cluster_from_json(j: &Json) -> (r: Option<Cluster>)
    ensures
        match r {
            Some(v) => cluster_of_json(j@) == Some(v@),
            None => cluster_of_json(j@) is None,
        },
{
    match j {
        Json::Obj(fields) => {
            let id = match lookup(fields, "id") {
                Some(Json::Str(s)) => s.clone(),
                _ => {
                    return None;
                },
            };
            let created_at = match lookup(fields, "created_at") {
                Some(Json::Str(s)) => s.clone(),
                _ => {
                    return None;
                },
            };
            let updated_at = match lookup(fields, "updated_at") {
                Some(value) => match opt_string_from_json(value) {
                    Some(o) => o,
                    None => {
                        return None;
                    },
                },
                None => {
                    return None;
                },
            };
            let name = match lookup(fields, "name") {
                Some(Json::Str(s)) => s.clone(),
                _ => {
                    return None;
                },
            };
            let status = match lookup(fields, "status") {
                Some(Json::Str(s)) => Status::parse(s.as_str()),
                _ => {
                    return None;
                },
            };
            let project_id = match lookup(fields, "project_id") {
                Some(Json::Str(s)) => s.clone(),
                _ => {
                    return None;
                },
            };
            let network_id = match lookup(fields, "network_id") {
                Some(Json::Str(s)) => s.clone(),
                _ => {
                    return None;
                },
            };
            let subnet_id = match lookup(fields, "subnet_id") {
                Some(Json::Str(s)) => s.clone(),
                _ => {
                    return None;
                },
            };
            let kube_api_ip = match lookup(fields, "kube_api_ip") {
                Some(Json::Str(s)) => s.clone(),
                _ => {
                    return None;
                },
            };
            let kube_version = match lookup(fields, "kube_version") {
                Some(Json::Str(s)) => s.clone(),
                _ => {
                    return None;
                },
            };
            let region = match lookup(fields, "region") {
                Some(Json::Str(s)) => s.clone(),
                _ => {
                    return None;
                },
            };
            let pki_tree_updated_at = match lookup(fields, "pki_tree_updated_at") {
                Some(value) => match opt_string_from_json(value) {
                    Some(o) => o,
                    None => {
                        return None;
                    },
                },
                None => {
                    return None;
                },
            };
            let maintenance_window_start = match lookup(fields, "maintenance_window_start") {
                Some(value) => match opt_string_from_json(value) {
                    Some(o) => o,
                    None => {
                        return None;
                    },
                },
                None => {
                    return None;
                },
            };
            let maintenance_window_end = match lookup(fields, "maintenance_window_end") {
                Some(value) => match opt_string_from_json(value) {
                    Some(o) => o,
                    None => {
                        return None;
                    },
                },
                None => {
                    return None;
                },
            };
            let maintenance_last_start = match lookup(fields, "maintenance_last_start") {
                Some(value) => match opt_string_from_json(value) {
                    Some(o) => o,
                    None => {
                        return None;
                    },
                },
                None => {
                    return None;
                },
            };
            let enable_autorepair = match lookup(fields, "enable_autorepair") {
                Some(Json::Bool(b)) => *b,
                _ => {
                    return None;
                },
            };
            let enable_patch_version_auto_upgrade = match lookup(
                fields,
                "enable_patch_version_auto_upgrade",
            ) {
                Some(Json::Bool(b)) => *b,
                _ => {
                    return None;
                },
            };
            let zonal = match lookup(fields, "zonal") {
                Some(Json::Bool(b)) => *b,
                _ => {
                    return None;
                },
            };
            let kubernetes_options = match lookup(fields, "kubernetes_options") {
                Some(Json::Obj(kube_fields)) => match lookup(
                    kube_fields,
                    "enable_pod_security_policy",
                ) {
                    Some(Json::Bool(b)) => KubernetesOptions { enable_pod_security_policy: *b },
                    _ => {
                        return None;
                    },
                },
                _ => {
                    return None;
                },
            };
            Some(
                Cluster {
                    id,
                    created_at,
                    updated_at,
                    name,
                    status,
                    project_id,
                    network_id,
                    subnet_id,
                    kube_api_ip,
                    kube_version,
                    region,
                    pki_tree_updated_at,
                    maintenance_window_start,
                    maintenance_window_end,
                    maintenance_last_start,
                    enable_autorepair,
                    enable_patch_version_auto_upgrade,
                    zonal,
                    kubernetes_options,
                },
            )
        },
        _ => None,
    }
}

/// The cluster records a JSON array denotes, when every element has the
/// expected shape.
pub open spec fn clusters_of_items(items: Seq<JsonModel>) -> Option<Seq<ClusterModel>>
    decreases items.len(),
{
    if items.len() == 0 {
        Some(Seq::empty())
    } else {
        match (clusters_of_items(items.drop_last()), cluster_of_json(items.last())) {
            (Some(done), Some(v)) => Some(done.push(v)),
            _ => None,
        }
    }
}

/// A cluster list denotes a value iff every element does, and then
/// element-wise.
pub proof fn lemma_clusters_of_items(items: Seq<JsonModel>)
    ensures
        clusters_of_items(items) is Some <==> (forall|i: int|
            0 <= i < items.len() ==> #[trigger] cluster_of_json(items[i]) is Some),
        clusters_of_items(items) is Some ==> {
            let r = clusters_of_items(items).unwrap();
            &&& r.len() == items.len()
            &&& forall|i: int|
                0 <= i < items.len() ==> r[i] == #[trigger] cluster_of_json(items[i]).unwrap()
        },
    decreases items.len(),
{
    if items.len() > 0 {
        lemma_clusters_of_items(items.drop_last());
        assert(forall|i: int| 0 <= i < items.len() - 1 ==> items.drop_last()[i] == items[i]);
        assert(items.last() == items[items.len() - 1]);
        if clusters_of_items(items) is Some {
            let done = clusters_of_items(items.drop_last()).unwrap();
            let full = done.push(cluster_of_json(items.last()).unwrap());
            assert(clusters_of_items(items) == Some(full));
            assert(full.len() == done.len() + 1);
            assert forall|i: int|
                0 <= i < items.len() implies clusters_of_items(items).unwrap()[i]
                == #[trigger] cluster_of_json(items[i]).unwrap() by {
                if i < items.len() - 1 {
                    assert(full[i] == done[i]);
                } else {
                    assert(full[i] == cluster_of_json(items.last()).unwrap());
                }
            }
        }
    }
}

/// Decode a list of cluster records from the elements of a JSON array.
pub fn clusters_from_items(items: &Vec<Json>) -> (r: Option<Vec<Cluster>>)
    ensures
        match r {
            Some(vs) => clusters_of_items(items_model(items@)) == Some(cluster_views(vs@)),
            None => clusters_of_items(items_model(items@)) is None,
        },
{
    let ghost models = items_model(items@);
    proof {
        lemma_items_model(items@);
        lemma_clusters_of_items(models);
    }
    let mut out: Vec<Cluster> = Vec::new();
    let mut idx: usize = 0;
    while idx < items.len()
        invariant
            idx <= items@.len(),
            models == items_model(items@),
            models.len() == items@.len(),
            forall|k: int| 0 <= k < items@.len() ==> models[k] == items@[k]@,
            clusters_of_items(models) is Some <==> (forall|i: int|
                0 <= i < models.len() ==> #[trigger] cluster_of_json(models[i]) is Some),
            clusters_of_items(models) is Some ==> {
                let r = clusters_of_items(models).unwrap();
                &&& r.len() == models.len()
                &&& forall|i: int|
                    0 <= i < models.len() ==> r[i] == #[trigger] cluster_of_json(
                        models[i],
                    ).unwrap()
            },
            out@.len() == idx,
            forall|k: int|
                0 <= k < idx ==> #[trigger] cluster_of_json(models[k]) == Some(out@[k]@),
        decreases items@.len() - idx,
    {
        match cluster_from_json(&items[idx]) {
            Some(v) => {
                out.push(v);
            },
            None => {
                proof {
                    assert(cluster_of_json(models[idx as int]) is None);
                }
                return None;
            },
        }
        idx += 1;
    }
    proof {
        assert forall|i: int|
            0 <= i < models.len() implies #[trigger] cluster_of_json(models[i]) is Some by {
            assert(cluster_of_json(models[i]) == Some(out@[i]@));
        }
        assert(clusters_of_items(models) is Some);
        assert(clusters_of_items(models).unwrap().len() == models.len());
        assert forall|i: int|
            0 <= i < models.len() implies clusters_of_items(models).unwrap()[i] == cluster_views(
            out@,
        )[i] by {
            assert(cluster_of_json(models[i]) == Some(out@[i]@));
            assert(clusters_of_items(models).unwrap()[i] == cluster_of_json(models[i]).unwrap());
        }
        assert(clusters_of_items(models).unwrap() =~= cluster_views(out@));
    }
    Some(out)
}

/// Create options for a new cluster.
pub struct CreateOpts {
    name: String,
    network_id: Option<String>,
    subnet_id: Option<String>,
    kube_version: String,
    region: String,
    nodegroups: Option<Vec<nodegroup::schemas::CreateOpts>>,
    maintenance_window_start: Option<String>,
    enable_autorepair: Option<bool>,
    enable_patch_version_auto_upgrade: Option<bool>,
    zonal: Option<bool>,
    kubernetes_options: Option<KubernetesOptions>,
}

/// The mathematical model of cluster [`CreateOpts`].
pub struct CreateOptsModel {
    pub name: Seq<char>,
    pub network_id: Option<Seq<char>>,
    pub subnet_id: Option<Seq<char>>,
    pub kube_version: Seq<char>,
    pub region: Seq<char>,
    pub nodegroups: Option<Seq<NodegroupCreateOptsModel>>,
    pub maintenance_window_start: Option<Seq<char>>,
    pub enable_autorepair: Option<bool>,
    pub enable_patch_version_auto_upgrade: Option<bool>,
    pub zonal: Option<bool>,
    pub kubernetes_options: Option<KubernetesOptionsModel>,
}

/// The models of a sequence of nodegroup create options.
pub open spec fn nodegroup_opts_views(vs: Seq<nodegroup::schemas::CreateOpts>) -> Seq<
    NodegroupCreateOptsModel,
> {
    Seq::new(vs.len(), |i: int| vs[i]@)
}

impl View for CreateOpts {
    type V = CreateOptsModel;

    closed spec fn view(&self) -> CreateOptsModel {
        CreateOptsModel {
            name: self.name@,
            network_id: opt_text(self.network_id),
            subnet_id: opt_text(self.subnet_id),
            kube_version: self.kube_version@,
            region: self.region@,
            nodegroups: match self.nodegroups {
                Some(l) => Some(nodegroup_opts_views(l@)),
                None => None,
            },
            maintenance_window_start: opt_text(self.maintenance_window_start),
            enable_autorepair: self.enable_autorepair,
            enable_patch_version_auto_upgrade: self.enable_patch_version_auto_upgrade,
            zonal: self.zonal,
            kubernetes_options: match self.kubernetes_options {
                Some(k) => Some(k@),
                None => None,
            },
        }
    }
}

impl CreateOpts {
    /// Begin create options from the required fields.
    pub fn new(name: &str, kube_version: &str, region: &str) -> (r: CreateOpts)
        ensures
            r@ == (CreateOptsModel {
                name: name@,
                network_id: None,
                subnet_id: None,
                kube_version: kube_version@,
                region: region@,
                nodegroups: None,
                maintenance_window_start: None,
                enable_autorepair: None,
                enable_patch_version_auto_upgrade: None,
                zonal: None,
                kubernetes_options: None,
            }),
    {
        CreateOpts {
            name: name.to_owned(),
            network_id: None,
            subnet_id: None,
            kube_version: kube_version.to_owned(),
            region: region.to_owned(),
            nodegroups: None,
            maintenance_window_start: None,
            enable_autorepair: None,
            enable_patch_version_auto_upgrade: None,
            zonal: None,
            kubernetes_options: None,
        }
    }

    /// Add a reference to a pre-created network.
    pub fn with_network_id(self, network_id: &str) -> (r: CreateOpts)
        ensures
            r@ == (CreateOptsModel { network_id: Some(network_id@), ..self@ }),
    {
        CreateOpts { network_id: Some(network_id.to_owned()), ..self }
    }

    /// Add a reference to a pre-created subnet.
    pub fn with_subnet_id(self, subnet_id: &str) -> (r: CreateOpts)
        ensures
            r@ == (CreateOptsModel { subnet_id: Some(subnet_id@), ..self@ }),
    {
        CreateOpts { subnet_id: Some(subnet_id.to_owned()), ..self }
    }

    /// Add nodegroups parameters.
    pub fn with_nodegroups(self, nodegroups: Vec<nodegroup::schemas::CreateOpts>) -> (r:
        CreateOpts)
        ensures
            r@ == (CreateOptsModel {
                nodegroups: Some(nodegroup_opts_views(nodegroups@)),
                ..self@
            }),
    {
        CreateOpts { nodegroups: Some(nodegroups), ..self }
    }

    /// Add maintenance_window_start in UTC.
    /// It should be in hh:mm:ss format.
    pub fn with_maintenance_window_start(self, maintenance_window_start: &str) -> (r: CreateOpts)
        ensures
            r@ == (CreateOptsModel {
                maintenance_window_start: Some(maintenance_window_start@),
                ..self@
            }),
    {
        CreateOpts {
            maintenance_window_start: Some(maintenance_window_start.to_owned()),
            ..self
        }
    }

    /// Add enable_autorepair flag.
    pub fn with_enable_autorepair(self, enable_autorepair: bool) -> (r: CreateOpts)
        ensures
            r@ == (CreateOptsModel { enable_autorepair: Some(enable_autorepair), ..self@ }),
    {
        CreateOpts { enable_autorepair: Some(enable_autorepair), ..self }
    }

    /// Add enable_patch_version_auto_upgrade flag.
    pub fn with_enable_patch_version_auto_upgrade(
        self,
        enable_patch_version_auto_upgrade: bool,
    ) -> (r: CreateOpts)
        ensures
            r@ == (CreateOptsModel {
                enable_patch_version_auto_upgrade: Some(enable_patch_version_auto_upgrade),
                ..self@
            }),
    {
        CreateOpts {
            enable_patch_version_auto_upgrade: Some(enable_patch_version_auto_upgrade),
            ..self
        }
    }

    /// Add zonal flag.
    pub fn with_zonal(self, zonal: bool) -> (r: CreateOpts)
        ensures
            r@ == (CreateOptsModel { zonal: Some(zonal), ..self@ }),
    {
        CreateOpts { zonal: Some(zonal), ..self }
    }

    /// Add kubernetes_options.
    pub fn with_kubernetes_options(self, kubernetes_options: KubernetesOptions) -> (r: CreateOpts)
        ensures
            r@ == (CreateOptsModel {
                kubernetes_options: Some(kubernetes_options@),
                ..self@
            }),
    {
        CreateOpts { kubernetes_options: Some(kubernetes_options), ..self }
    }

    /// Append this record's JSON form to `out`.
    #[verifier::rlimit(100)]
    #[verifier::spinoff_prover]
    pub fn append_json(&self, out: &mut String)
        ensures
            final(out)@ == old(out)@ + create_opts_json(self@),
    {
        let ghost start = out@;
        let ghost m = self@;
        out.append("{\"name\":");
        append_quoted(out, self.name.as_str());
        let ghost mut pref = ("{\"name\":"@) + quoted(m.name);
        proof {
            assert(out@ =~= start + pref);
        }
        out.append(",\"network_id\":");
        append_opt_string(out, &self.network_id);
        proof {
            pref = pref + (",\"network_id\":"@) + opt_string_json(m.network_id);
            assert(out@ =~= start + pref);
        }
        out.append(",\"subnet_id\":");
        append_opt_string(out, &self.subnet_id);
        proof {
            pref = pref + (",\"subnet_id\":"@) + opt_string_json(m.subnet_id);
            assert(out@ =~= start + pref);
        }
        out.append(",\"kube_version\":");
        append_quoted(out, self.kube_version.as_str());
        proof {
            pref = pref + (",\"kube_version\":"@) + quoted(m.kube_version);
            assert(out@ =~= start + pref);
        }
        out.append(",\"region\":");
        append_quoted(out, self.region.as_str());
        proof {
            pref = pref + (",\"region\":"@) + quoted(m.region);
            assert(out@ =~= start + pref);
        }
        out.append(",\"nodegroups\":");
        append_opt_nodegroups(out, &self.nodegroups);
        proof {
            pref = pref + (",\"nodegroups\":"@) + opt_nodegroups_json(m.nodegroups);
            assert(out@ =~= start + pref);
            assert(pref == create_opts_json_head(m));
        }
        out.append(",\"maintenance_window_start\":");
        append_opt_string(out, &self.maintenance_window_start);
        proof {
            pref = pref + (",\"maintenance_window_start\":"@) + opt_string_json(
                m.maintenance_window_start,
            );
            assert(out@ =~= start + pref);
        }
        out.append(",\"enable_autorepair\":");
        append_opt_bool(out, &self.enable_autorepair);
        proof {
            pref = pref + (",\"enable_autorepair\":"@) + opt_bool_json(m.enable_autorepair);
            assert(out@ =~= start + pref);
        }
        out.append(",\"enable_patch_version_auto_upgrade\":");
        append_opt_bool(out, &self.enable_patch_version_auto_upgrade);
        proof {
            pref = pref + (",\"enable_patch_version_auto_upgrade\":"@) + opt_bool_json(
                m.enable_patch_version_auto_upgrade,
            );
            assert(out@ =~= start + pref);
        }
        out.append(",\"zonal\":");
        append_opt_bool(out, &self.zonal);
        proof {
            pref = pref + (",\"zonal\":"@) + opt_bool_json(m.zonal);
            assert(out@ =~= start + pref);
        }
        out.append(",\"kubernetes_options\":");
        match &self.kubernetes_options {
            None => out.append("null"),
            Some(k) => {
                out.append("{\"enable_pod_security_policy\":");
                append_bool(out, k.enable_pod_security_policy);
                out.append("}");
            },
        }
        proof {
            pref = pref + (",\"kubernetes_options\":"@) + opt_kubernetes_options_json(
                m.kubernetes_options,
            );
            assert(out@ =~= start + pref);
        }
        out.append("}");
        proof {
            pref = pref + ("}"@);
            assert(out@ =~= start + pref);
            assert(pref == create_opts_json(m));
        }
    }
}

/// How the elements of a nodegroup-options list are written,
/// comma-separated.
pub open spec fn nodegroup_opts_list_json(l: Seq<NodegroupCreateOptsModel>) -> Seq<char>
    decreases l.len(),
{
    if l.len() == 0 {
        Seq::empty()
    } else if l.len() == 1 {
        nodegroup_opts_json(l[0])
    } else {
        nodegroup_opts_list_json(l.drop_last()) + seq![','] + nodegroup_opts_json(l.last())
    }
}

/// How an optional nodegroup-options list is written: `null`, or a JSON
/// array.
pub open spec fn opt_nodegroups_json(o: Option<Seq<NodegroupCreateOptsModel>>) -> Seq<char> {
    match o {
        None => "null"@,
        Some(l) => seq!['['] + nodegroup_opts_list_json(l) + seq![']'],
    }
}

/// Append `null`, or a JSON array of nodegroup create options.
fn append_opt_nodegroups(out: &mut String, o: &Option<Vec<nodegroup::schemas::CreateOpts>>)
    ensures
        final(out)@ == old(out)@ + opt_nodegroups_json(
            match *o {
                Some(l) => Some(nodegroup_opts_views(l@)),
                None => None,
            },
        ),
{
    match o {
        None => out.append("null"),
        Some(l) => {
            let ghost prefix = out@;
            let ghost models = nodegroup_opts_views(l@);
            crate::text::push_char(out, '[');
            let mut i: usize = 0;
            while i < l.len()
                invariant
                    models == nodegroup_opts_views(l@),
                    models.len() == l@.len(),
                    forall|k: int| 0 <= k < models.len() ==> models[k] == l@[k]@,
                    i <= l@.len(),
                    out@ == prefix + seq!['['] + nodegroup_opts_list_json(models.take(i as int)),
                decreases l@.len() - i,
            {
                let ghost done = models.take(i as int);
                if i > 0 {
                    crate::text::push_char(out, ',');
                }
                l[i].append_json(out);
                proof {
                    let step = models.take(i + 1 as int);
                    assert(step.drop_last() =~= done);
                    assert(step.last() == models[i as int]);
                    if i == 0 {
                        assert(step =~= seq![models[0]]);
                        assert(nodegroup_opts_list_json(step) == nodegroup_opts_json(step[0]));
                        assert(out@ =~= prefix + seq!['['] + nodegroup_opts_list_json(step));
                    } else {
                        assert(nodegroup_opts_list_json(step) == nodegroup_opts_list_json(done)
                            + seq![','] + nodegroup_opts_json(models[i as int]));
                        assert(out@ =~= prefix + seq!['['] + nodegroup_opts_list_json(step));
                    }
                }
                i += 1;
            }
            crate::text::push_char(out, ']');
            proof {
                assert(models.take(models.len() as int) =~= models);
                assert(out@ =~= prefix + opt_nodegroups_json(Some(models)));
            }
        },
    }
}

/// The first half of [`create_opts_json`]: the fields through
/// `nodegroups`.
pub open spec fn create_opts_json_head(o: CreateOptsModel) -> Seq<char> {
    "{\"name\":"@ + quoted(o.name) + ",\"network_id\":"@ + opt_string_json(o.network_id)
        + ",\"subnet_id\":"@ + opt_string_json(o.subnet_id) + ",\"kube_version\":"@ + quoted(
        o.kube_version,
    ) + ",\"region\":"@ + quoted(o.region) + ",\"nodegroups\":"@ + opt_nodegroups_json(
        o.nodegroups,
    )
}

/// How cluster create options are written as JSON, fields in declaration
/// order, absent options as `null`.
pub open spec fn create_opts_json(o: CreateOptsModel) -> Seq<char> {
    create_opts_json_head(o) + ",\"maintenance_window_start\":"@ + opt_string_json(
        o.maintenance_window_start,
    ) + ",\"enable_autorepair\":"@ + opt_bool_json(o.enable_autorepair)
        + ",\"enable_patch_version_auto_upgrade\":"@ + opt_bool_json(
        o.enable_patch_version_auto_upgrade,
    ) + ",\"zonal\":"@ + opt_bool_json(o.zonal) + ",\"kubernetes_options\":"@
        + opt_kubernetes_options_json(o.kubernetes_options) + "}"@
}

/// How cluster create options are wrapped for the wire: under the
/// `cluster` envelope key.
pub open spec fn create_opts_root_json(o: CreateOptsModel) -> Seq<char> {
    "{\"cluster\":"@ + create_opts_json(o) + "}"@
}

/// CreateOptsRoot represents a root of cluster create options.
pub struct CreateOptsRoot {
    pub cluster: CreateOpts,
}

impl CreateOptsRoot {
    /// The serialized JSON body for this envelope.
    pub fn body(&self) -> (r: String)
        ensures
            r@ == create_opts_root_json(self.cluster@),
    {
        let mut out = String::from_str("{\"cluster\":");
        self.cluster.append_json(&mut out);
        out.append("}");
        proof {
            assert(out@ =~= create_opts_root_json(self.cluster@));
        }
        out
    }
}

} // verus!
