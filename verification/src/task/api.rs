//! Requests and response decoding for task resources.

use vstd::prelude::*;
use vstd::string::StringExecFns;

use crate::error::MKSError;
use crate::json::{
    decode_failure_text, lookup, obj_lookup, parse_json_text, spec_json, Json, JsonModel,
};
use crate::{new_request_result, Client, Method, Request};
use super::schemas::{
    task_from_json, task_of_json, task_views, tasks_from_items, tasks_of_items, Task, TaskModel,
};

verus! {

/// The resource path of a cluster's task collection.
pub open spec fn tasks_path(cluster_id: Seq<char>) -> Seq<char> {
    "/v1/clusters/"@ + cluster_id + "/tasks"@
}

/// The resource path of one task of a cluster.
pub open spec fn task_path(cluster_id: Seq<char>, task_id: Seq<char>) -> Seq<char> {
    tasks_path(cluster_id) + "/"@ + task_id
}

fn build_tasks_path(cluster_id: &str) -> (r: String)
    ensures
        r@ == tasks_path(cluster_id@),
{
    let mut p = String::from_str("/v1/clusters/");
    p.append(cluster_id);
    p.append("/tasks");
    proof {
        assert(p@ =~= tasks_path(cluster_id@));
    }
    p
}

/// Build the request that fetches one task of a cluster.
pub fn get_request(client: &Client, cluster_id: &str, task_id: &str) -> (r: Result<
    Request,
    MKSError,
>)
    ensures
        new_request_result(client@, Method::Get, task_path(cluster_id@, task_id@), None, r),
{
    let mut path = build_tasks_path(cluster_id);
    path.append("/");
    path.append(task_id);
    proof {
        assert(path@ =~= task_path(cluster_id@, task_id@));
    }
    client.new_request(Method::Get, path.as_str(), None)
}

/// Build the request that lists all tasks of a cluster.
pub fn list_request(client: &Client, cluster_id: &str) -> (r: Result<Request, MKSError>)
    ensures
        new_request_result(client@, Method::Get, tasks_path(cluster_id@), None, r),
{
    let path = build_tasks_path(cluster_id);
    client.new_request(Method::Get, path.as_str(), None)
}

/// The task record a get-response body denotes: well-formed JSON holding an
/// object whose `task` field is a task record.
pub open spec fn task_of_body(b: Seq<char>) -> Option<TaskModel> {
    match spec_json(b) {
        Some(JsonModel::Obj(fields)) => match obj_lookup(fields, "task"@) {
            Some(j) => task_of_json(j),
            _ => None,
        },
        _ => None,
    }
}

/// The task records a list-response body denotes: well-formed JSON holding
/// an object whose `tasks` field is an array of task records.
pub open spec fn tasks_of_body(b: Seq<char>) -> Option<Seq<TaskModel>> {
    match spec_json(b) {
        Some(JsonModel::Obj(fields)) => match obj_lookup(fields, "tasks"@) {
            Some(JsonModel::Arr(items)) => tasks_of_items(items),
            _ => None,
        },
        _ => None,
    }
}

/// Decode the body of a get-task response, or report `DeserializeError`
/// carrying the raw body unchanged.
pub fn parse_task_body(body: String) -> (r: Result<Task, MKSError>)
    ensures
        match r {
            Ok(task) => task_of_body(body@) == Some(task@),
            Err(e) => {
                &&& task_of_body(body@) is None
                &&& e matches MKSError::DeserializeError(cause, raw) && cause@
                    == decode_failure_text(body@) && raw@ == body@
            },
        },
{
    let parsed = match parse_json_text(body.as_str()) {
        Some(j) => j,
        None => {
            return Err(
                MKSError::DeserializeError(String::from_str("malformed JSON text"), body),
            );
        },
    };
    let task = match &parsed {
        Json::Obj(fields) => match lookup(fields, "task") {
            Some(j) => task_from_json(j),
            None => None,
        },
        _ => None,
    };
    match task {
        Some(task) => Ok(task),
        None => Err(
            MKSError::DeserializeError(String::from_str("unexpected document structure"), body),
        ),
    }
}

/// Decode the body of a list-tasks response, or report `DeserializeError`
/// carrying the raw body unchanged.
pub fn parse_list_body(body: String) -> (r: Result<Vec<Task>, MKSError>)
    ensures
        match r {
            Ok(tasks) => tasks_of_body(body@) is Some && task_views(tasks@) == tasks_of_body(
                body@,
            ).unwrap(),
            Err(e) => {
                &&& tasks_of_body(body@) is None
                &&& e matches MKSError::DeserializeError(cause, raw) && cause@
                    == decode_failure_text(body@) && raw@ == body@
            },
        },
{
    let parsed = match parse_json_text(body.as_str()) {
        Some(j) => j,
        None => {
            return Err(
                MKSError::DeserializeError(String::from_str("malformed JSON text"), body),
            );
        },
    };
    let tasks = match &parsed {
        Json::Obj(fields) => match lookup(fields, "tasks") {
            Some(Json::Arr(items)) => tasks_from_items(items),
            _ => None,
        },
        _ => None,
    };
    match tasks {
        Some(tasks) => Ok(tasks),
        None => Err(
            MKSError::DeserializeError(String::from_str("unexpected document structure"), body),
        ),
    }
}

} // verus!
