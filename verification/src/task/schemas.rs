//! Schemas for task resources.

use vstd::prelude::*;
use vstd::string::StringExecFns;

use crate::json::{
    items_model, lemma_items_model, lookup, obj_lookup, opt_string_from_json, opt_string_of_json,
    Json, JsonModel,
};
use crate::opt_text;
use crate::text::str_eq;

verus! {

/// Status represents an enum with various task statuses.
///
/// `Unknown` absorbs API values added after this client was built.
#[derive(Clone, Copy, PartialEq, Eq, Structural, Debug)]
pub enum Status {
    InProgress,
    Done,
    Error,
    Unknown,
}

/// The wire name of a task status.
pub open spec fn status_text(s: Status) -> Seq<char> {
    match s {
        Status::InProgress => "IN_PROGRESS"@,
        Status::Done => "DONE"@,
        Status::Error => "ERROR"@,
        Status::Unknown => "UNKNOWN"@,
    }
}

/// The task status a wire name denotes; names unknown to this client fall
/// back to `Unknown`.
pub open spec fn status_of_text(s: Seq<char>) -> Status {
    if s == "IN_PROGRESS"@ {
        Status::InProgress
    } else if s == "DONE"@ {
        Status::Done
    } else if s == "ERROR"@ {
        Status::Error
    } else {
        Status::Unknown
    }
}

impl Status {
    /// The name this status has on the wire.
    pub fn api_name(&self) -> (r: String)
        ensures
            r@ == status_text(*self),
    {
        match self {
            Status::InProgress => String::from_str("IN_PROGRESS"),
            Status::Done => String::from_str("DONE"),
            Status::Error => String::from_str("ERROR"),
            Status::Unknown => String::from_str("UNKNOWN"),
        }
    }

    /// The status a wire name denotes.
    pub fn parse(name: &str) -> (r: Status)
        ensures
            r == status_of_text(name@),
    {
        if str_eq(name, "IN_PROGRESS") {
            Status::InProgress
        } else if str_eq(name, "DONE") {
            Status::Done
        } else if str_eq(name, "ERROR") {
            Status::Error
        } else {
            Status::Unknown
        }
    }
}

/// Writing a task status to its wire name and reading it back yields the
/// same status.
pub proof fn lemma_status_round_trip(s: Status)
    ensures
        status_of_text(status_text(s)) == s,
{
    broadcast use vstd::string::group_string_axioms;

    reveal_strlit("IN_PROGRESS");
    reveal_strlit("DONE");
    reveal_strlit("ERROR");
    reveal_strlit("UNKNOWN");
    assert(("IN_PROGRESS"@).len() == 11);
    assert(("DONE"@).len() == 4);
    assert(("ERROR"@).len() == 5);
    assert(("UNKNOWN"@).len() == 7);
}

/// Type represents an enum with various task types.
///
/// `Unknown` absorbs API values added after this client was built.
#[derive(Clone, Copy, PartialEq, Eq, Structural, Debug)]
pub enum Type {
    CreateCluster,
    DeleteCluster,
    RotateCerts,
    NodeGroupResize,
    NodeReinstall,
    ClusterResize,
    UpgradePatchVersion,
    UpgradeMinorVersion,
    UpdateNodegroupLabels,
    UpgradeMastersConfiguration,
    UpgradeClusterConfiguration,
    Unknown,
}

/// The wire name of a task type.
pub open spec fn type_text(t: Type) -> Seq<char> {
    match t {
        Type::CreateCluster => "CREATE_CLUSTER"@,
        Type::DeleteCluster => "DELETE_CLUSTER"@,
        Type::RotateCerts => "ROTATE_CERTS"@,
        Type::NodeGroupResize => "NODE_GROUP_RESIZE"@,
        Type::NodeReinstall => "NODE_REINSTALL"@,
        Type::ClusterResize => "CLUSTER_RESIZE"@,
        Type::UpgradePatchVersion => "UPGRADE_PATCH_VERSION"@,
        Type::UpgradeMinorVersion => "UPGRADE_MINOR_VERSION"@,
        Type::UpdateNodegroupLabels => "UPDATE_NODEGROUP_LABELS"@,
        Type::UpgradeMastersConfiguration => "UPGRADE_MASTERS_CONFIGURATION"@,
        Type::UpgradeClusterConfiguration => "UPGRADE_CLUSTER_CONFIGURATION"@,
        Type::Unknown => "UNKNOWN"@,
    }
}

/// The task type a wire name denotes; names unknown to this client fall
/// back to `Unknown`.
pub open spec fn type_of_text(s: Seq<char>) -> Type {
    if s == "CREATE_CLUSTER"@ {
        Type::CreateCluster
    } else if s == "DELETE_CLUSTER"@ {
        Type::DeleteCluster
    } else if s == "ROTATE_CERTS"@ {
        Type::RotateCerts
    } else if s == "NODE_GROUP_RESIZE"@ {
        Type::NodeGroupResize
    } else if s == "NODE_REINSTALL"@ {
        Type::NodeReinstall
    } else if s == "CLUSTER_RESIZE"@ {
        Type::ClusterResize
    } else if s == "UPGRADE_PATCH_VERSION"@ {
        Type::UpgradePatchVersion
    } else if s == "UPGRADE_MINOR_VERSION"@ {
        Type::UpgradeMinorVersion
    } else if s == "UPDATE_NODEGROUP_LABELS"@ {
        Type::UpdateNodegroupLabels
    } else if s == "UPGRADE_MASTERS_CONFIGURATION"@ {
        Type::UpgradeMastersConfiguration
    } else if s == "UPGRADE_CLUSTER_CONFIGURATION"@ {
        Type::UpgradeClusterConfiguration
    } else {
        Type::Unknown
    }
}

impl Type {
    /// The wire name of this value.
    pub fn api_name(&self) -> (r: String)
        ensures
            r@ == type_text(*self),
    {
        match self {
            Type::CreateCluster => String::from_str("CREATE_CLUSTER"),
            Type::DeleteCluster => String::from_str("DELETE_CLUSTER"),
            Type::RotateCerts => String::from_str("ROTATE_CERTS"),
            Type::NodeGroupResize => String::from_str("NODE_GROUP_RESIZE"),
            Type::NodeReinstall => String::from_str("NODE_REINSTALL"),
            Type::ClusterResize => String::from_str("CLUSTER_RESIZE"),
            Type::UpgradePatchVersion => String::from_str("UPGRADE_PATCH_VERSION"),
            Type::UpgradeMinorVersion => String::from_str("UPGRADE_MINOR_VERSION"),
            Type::UpdateNodegroupLabels => String::from_str("UPDATE_NODEGROUP_LABELS"),
            Type::UpgradeMastersConfiguration => String::from_str("UPGRADE_MASTERS_CONFIGURATION"),
            Type::UpgradeClusterConfiguration => String::from_str("UPGRADE_CLUSTER_CONFIGURATION"),
            Type::Unknown => String::from_str("UNKNOWN"),
        }
    }

    /// The task type a wire name denotes.
    pub fn parse(name: &str) -> (r: Type)
        ensures
            r == type_of_text(name@),
    {
        if str_eq(name, "CREATE_CLUSTER") {
            Type::CreateCluster
        } else if str_eq(name, "DELETE_CLUSTER") {
            Type::DeleteCluster
        } else if str_eq(name, "ROTATE_CERTS") {
            Type::RotateCerts
        } else if str_eq(name, "NODE_GROUP_RESIZE") {
            Type::NodeGroupResize
        } else if str_eq(name, "NODE_REINSTALL") {
            Type::NodeReinstall
        } else if str_eq(name, "CLUSTER_RESIZE") {
            Type::ClusterResize
        } else if str_eq(name, "UPGRADE_PATCH_VERSION") {
            Type::UpgradePatchVersion
        } else if str_eq(name, "UPGRADE_MINOR_VERSION") {
            Type::UpgradeMinorVersion
        } else if str_eq(name, "UPDATE_NODEGROUP_LABELS") {
            Type::UpdateNodegroupLabels
        } else if str_eq(name, "UPGRADE_MASTERS_CONFIGURATION") {
            Type::UpgradeMastersConfiguration
        } else if str_eq(name, "UPGRADE_CLUSTER_CONFIGURATION") {
            Type::UpgradeClusterConfiguration
        } else {
            Type::Unknown
        }
    }
}

/// Writing a task type to its wire name and reading it back yields the
/// same type.
pub proof fn lemma_type_round_trip(t: Type)
    ensures
        type_of_text(type_text(t)) == t,
{
    broadcast use vstd::string::group_string_axioms;

    reveal_strlit("CREATE_CLUSTER");
    reveal_strlit("DELETE_CLUSTER");
    reveal_strlit("ROTATE_CERTS");
    reveal_strlit("NODE_GROUP_RESIZE");
    reveal_strlit("NODE_REINSTALL");
    reveal_strlit("CLUSTER_RESIZE");
    reveal_strlit("UPGRADE_PATCH_VERSION");
    reveal_strlit("UPGRADE_MINOR_VERSION");
    reveal_strlit("UPDATE_NODEGROUP_LABELS");
    reveal_strlit("UPGRADE_MASTERS_CONFIGURATION");
    reveal_strlit("UPGRADE_CLUSTER_CONFIGURATION");
    reveal_strlit("UNKNOWN");
    assert(("CREATE_CLUSTER"@).len() == 14);
    assert(("DELETE_CLUSTER"@).len() == 14);
    assert(("ROTATE_CERTS"@).len() == 12);
    assert(("NODE_GROUP_RESIZE"@).len() == 17);
    assert(("NODE_REINSTALL"@).len() == 14);
    assert(("CLUSTER_RESIZE"@).len() == 14);
    assert(("UPGRADE_PATCH_VERSION"@).len() == 21);
    assert(("UPGRADE_MINOR_VERSION"@).len() == 21);
    assert(("UPDATE_NODEGROUP_LABELS"@).len() == 23);
    assert(("UPGRADE_MASTERS_CONFIGURATION"@).len() == 29);
    assert(("UPGRADE_CLUSTER_CONFIGURATION"@).len() == 29);
    assert(("UNKNOWN"@).len() == 7);
    assert(("CREATE_CLUSTER"@)[0] == 'C');
    assert(("DELETE_CLUSTER"@)[0] == 'D');
    assert(("NODE_REINSTALL"@)[0] == 'N');
    assert(("CLUSTER_RESIZE"@)[0] == 'C');
    assert(("CREATE_CLUSTER"@)[1] == 'R');
    assert(("CLUSTER_RESIZE"@)[1] == 'L');
    assert(("UPGRADE_PATCH_VERSION"@)[8] == 'P');
    assert(("UPGRADE_MINOR_VERSION"@)[8] == 'M');
    assert(("UPGRADE_MASTERS_CONFIGURATION"@)[8] == 'M');
    assert(("UPGRADE_CLUSTER_CONFIGURATION"@)[8] == 'C');
}

/// Task represents a deserialized task body from an API response.
pub struct Task {
    /// Task identifier.
    pub id: String,
    /// Timestamp in UTC timezone of when the task has been started.
    pub started_at: String,
    /// Timestamp in UTC timezone of when the task has been updated.
    pub updated_at: Option<String>,
    /// Cluster identifier.
    pub cluster_id: String,
    /// Current task status.
    pub status: Status,
    /// Task type.
    pub task_type: Type,
}

/// The mathematical model of a [`Task`].
pub struct TaskModel {
    pub id: Seq<char>,
    pub started_at: Seq<char>,
    pub updated_at: Option<Seq<char>>,
    pub cluster_id: Seq<char>,
    pub status: Status,
    pub task_type: Type,
}

impl View for Task {
    type V = TaskModel;

    open spec fn view(&self) -> TaskModel {
        TaskModel {
            id: self.id@,
            started_at: self.started_at@,
            updated_at: opt_text(self.updated_at),
            cluster_id: self.cluster_id@,
            status: self.status,
            task_type: self.task_type,
        }
    }
}

/// TaskRoot represents a root of a deserialized task.
pub struct TaskRoot {
    pub task: Task,
}

/// ListRoot represents a root of a list with deserialized tasks.
pub struct ListRoot {
    pub tasks: Vec<Task>,
}

/// The models of a sequence of task records.
pub open spec fn task_views(vs: Seq<Task>) -> Seq<TaskModel> {
    Seq::new(vs.len(), |i: int| vs[i]@)
}

/// The task record a JSON value denotes, when it has the expected shape.
/// The status and the type must be strings; names unknown to this client
/// fall back to their `Unknown` values.
pub open spec fn task_of_json(j: JsonModel) -> Option<TaskModel> {
    match j {
        JsonModel::Obj(fields) => {
            match (
                obj_lookup(fields, "id"@),
                obj_lookup(fields, "started_at"@),
                obj_lookup(fields, "updated_at"@),
                obj_lookup(fields, "cluster_id"@),
                obj_lookup(fields, "status"@),
                obj_lookup(fields, "type"@),
            ) {
                (
                    Some(JsonModel::Str(id)),
                    Some(JsonModel::Str(started_at)),
                    Some(updated),
                    Some(JsonModel::Str(cluster_id)),
                    Some(JsonModel::Str(status)),
                    Some(JsonModel::Str(task_type)),
                ) => match opt_string_of_json(updated) {
                    Some(updated_at) => Some(
                        TaskModel {
                            id,
                            started_at,
                            updated_at,
                            cluster_id,
                            status: status_of_text(status),
                            task_type: type_of_text(task_type),
                        },
                    ),
                    None => None,
                },
                _ => None,
            }
        },
        _ => None,
    }
}

/// Decode one task record from a JSON value.
pub fn task_from_json(j: &Json) -> (r: Option<Task>)
    ensures
        match r {
            Some(v) => task_of_json(j@) == Some(v@),
            None => task_of_json(j@) is None,
        },
{
    match j {
        Json::Obj(fields) => {
            let id = match lookup(fields, "id") {
                Some(Json::Str(s)) => s.clone(),
                _ => {
                    return None;
                },
            };
            let started_at = match lookup(fields, "started_at") {
                Some(Json::Str(s)) => s.clone(),
                _ => {
                    return None;
                },
            };
            let updated_at = match lookup(fields, "updated_at") {
                Some(value) => match opt_string_from_json(value) {
                    Some(o) => o,
                    None => {
                        return None;
                    },
                },
                None => {
                    return None;
                },
            };
            let cluster_id = match lookup(fields, "cluster_id") {
                Some(Json::Str(s)) => s.clone(),
                _ => {
                    return None;
                },
            };
            let status = match lookup(fields, "status") {
                Some(Json::Str(s)) => Status::parse(s.as_str()),
                _ => {
                    return None;
                },
            };
            let task_type = match lookup(fields, "type") {
                Some(Json::Str(s)) => Type::parse(s.as_str()),
                _ => {
                    return None;
                },
            };
            Some(Task { id, started_at, updated_at, cluster_id, status, task_type })
        },
        _ => None,
    }
}

/// The task records a JSON array denotes, when every element has the
/// expected shape.
pub open spec fn tasks_of_items(items: Seq<JsonModel>) -> Option<Seq<TaskModel>>
    decreases items.len(),
{
    if items.len() == 0 {
        Some(Seq::empty())
    } else {
        match (tasks_of_items(items.drop_last()), task_of_json(items.last())) {
            (Some(done), Some(v)) => Some(done.push(v)),
            _ => None,
        }
    }
}

/// A task list denotes a value iff every element does, and then
/// element-wise.
pub proof fn lemma_tasks_of_items(items: Seq<JsonModel>)
    ensures
        tasks_of_items(items) is Some <==> (forall|i: int|
            0 <= i < items.len() ==> #[trigger] task_of_json(items[i]) is Some),
        tasks_of_items(items) is Some ==> {
            let r = tasks_of_items(items).unwrap();
            &&& r.len() == items.len()
            &&& forall|i: int|
                0 <= i < items.len() ==> r[i] == #[trigger] task_of_json(items[i]).unwrap()
        },
    decreases items.len(),
{
    if items.len() > 0 {
        lemma_tasks_of_items(items.drop_last());
        assert(forall|i: int| 0 <= i < items.len() - 1 ==> items.drop_last()[i] == items[i]);
        assert(items.last() == items[items.len() - 1]);
        if tasks_of_items(items) is Some {
            let done = tasks_of_items(items.drop_last()).unwrap();
            let full = done.push(task_of_json(items.last()).unwrap());
            assert(tasks_of_items(items) == Some(full));
            assert(full.len() == done.len() + 1);
            assert forall|i: int|
                0 <= i < items.len() implies tasks_of_items(items).unwrap()[i]
                == #[trigger] task_of_json(items[i]).unwrap() by {
                if i < items.len() - 1 {
                    assert(full[i] == done[i]);
                } else {
                    assert(full[i] == task_of_json(items.last()).unwrap());
                }
            }
        }
    }
}

/// Decode a list of task records from the elements of a JSON array.
pub fn tasks_from_items(items: &Vec<Json>) -> (r: Option<Vec<Task>>)
    ensures
        match r {
            Some(vs) => tasks_of_items(items_model(items@)) == Some(task_views(vs@)),
            None => tasks_of_items(items_model(items@)) is None,
        },
{
    let ghost models = items_model(items@);
    proof {
        lemma_items_model(items@);
        lemma_tasks_of_items(models);
    }
    let mut out: Vec<Task> = Vec::new();
    let mut idx: usize = 0;
    while idx < items.len()
        invariant
            idx <= items@.len(),
            models == items_model(items@),
            models.len() == items@.len(),
            forall|k: int| 0 <= k < items@.len() ==> models[k] == items@[k]@,
            tasks_of_items(models) is Some <==> (forall|i: int|
                0 <= i < models.len() ==> #[trigger] task_of_json(models[i]) is Some),
            tasks_of_items(models) is Some ==> {
                let r = tasks_of_items(models).unwrap();
                &&& r.len() == models.len()
                &&& forall|i: int|
                    0 <= i < models.len() ==> r[i] == #[trigger] task_of_json(models[i]).unwrap()
            },
            out@.len() == idx,
            forall|k: int| 0 <= k < idx ==> #[trigger] task_of_json(models[k]) == Some(out@[k]@),
        decreases items@.len() - idx,
    {
        match task_from_json(&items[idx]) {
            Some(v) => {
                out.push(v);
            },
            None => {
                proof {
                    assert(task_of_json(models[idx as int]) is None);
                }
                return None;
            },
        }
        idx += 1;
    }
    proof {
        assert forall|i: int|
            0 <= i < models.len() implies #[trigger] task_of_json(models[i]) is Some by {
            assert(task_of_json(models[i]) == Some(out@[i]@));
        }
        assert(tasks_of_items(models) is Some);
        assert(tasks_of_items(models).unwrap().len() == models.len());
        assert forall|i: int|
            0 <= i < models.len() implies tasks_of_items(models).unwrap()[i] == task_views(
            out@,
        )[i] by {
            assert(task_of_json(models[i]) == Some(out@[i]@));
            assert(tasks_of_items(models).unwrap()[i] == task_of_json(models[i]).unwrap());
        }
        assert(tasks_of_items(models).unwrap() =~= task_views(out@));
    }
    Some(out)
}

} // verus!
