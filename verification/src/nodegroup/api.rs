//! Requests and response decoding for nodegroup resources.

use vstd::prelude::*;
use vstd::string::StringExecFns;

use crate::error::MKSError;
use crate::json::{
    decode_failure_text, lookup, obj_lookup, parse_json_text, spec_json, Json, JsonModel,
};
use crate::{new_request_result, Client, Method, Request};
use super::schemas::{
    create_opts_root_json, nodegroup_from_json, nodegroup_of_json, nodegroup_views,
    nodegroups_from_items, nodegroups_of_items, resize_opts_root_json, update_opts_root_json,
    CreateOpts, Nodegroup, NodegroupModel, ResizeOpts, UpdateOpts,
};
use crate::text::append_dec;

verus! {

/// The resource path of a cluster's nodegroup collection.
pub open spec fn nodegroups_path(cluster_id: Seq<char>) -> Seq<char> {
    "/v1/clusters/"@ + cluster_id + "/nodegroups"@
}

/// The resource path of one nodegroup of a cluster.
pub open spec fn nodegroup_path(cluster_id: Seq<char>, nodegroup_id: Seq<char>) -> Seq<char> {
    nodegroups_path(cluster_id) + "/"@ + nodegroup_id
}

/// The resource path of a nodegroup's resize action.
pub open spec fn resize_path(cluster_id: Seq<char>, nodegroup_id: Seq<char>) -> Seq<char> {
    nodegroup_path(cluster_id, nodegroup_id) + "/resize"@
}

fn build_nodegroups_path(cluster_id: &str) -> (r: String)
    ensures
        r@ == nodegroups_path(cluster_id@),
{
    let mut p = String::from_str("/v1/clusters/");
    p.append(cluster_id);
    p.append("/nodegroups");
    proof {
        assert(p@ =~= nodegroups_path(cluster_id@));
    }
    p
}

fn build_nodegroup_path(cluster_id: &str, nodegroup_id: &str) -> (r: String)
    ensures
        r@ == nodegroup_path(cluster_id@, nodegroup_id@),
{
    let mut p = build_nodegroups_path(cluster_id);
    p.append("/");
    p.append(nodegroup_id);
    proof {
        assert(p@ =~= nodegroup_path(cluster_id@, nodegroup_id@));
    }
    p
}

/// Build the request that fetches one nodegroup of a cluster.
pub fn get_request(client: &Client, cluster_id: &str, nodegroup_id: &str) -> (r: Result<
    Request,
    MKSError,
>)
    ensures
        new_request_result(
            client@,
            Method::Get,
            nodegroup_path(cluster_id@, nodegroup_id@),
            None,
            r,
        ),
{
    let path = build_nodegroup_path(cluster_id, nodegroup_id);
    client.new_request(Method::Get, path.as_str(), None)
}

/// Build the request that lists all nodegroups of a cluster.
pub fn list_request(client: &Client, cluster_id: &str) -> (r: Result<Request, MKSError>)
    ensures
        new_request_result(client@, Method::Get, nodegroups_path(cluster_id@), None, r),
{
    let path = build_nodegroups_path(cluster_id);
    client.new_request(Method::Get, path.as_str(), None)
}

/// Build the request that creates a nodegroup in a cluster; its body is
/// the create options under the `nodegroup` envelope key.
pub fn create_request(client: &Client, cluster_id: &str, opts: &CreateOpts) -> (r: Result<
    Request,
    MKSError,
>)
    ensures
        new_request_result(
            client@,
            Method::Post,
            nodegroups_path(cluster_id@),
            Some(create_opts_root_json(opts@)),
            r,
        ),
{
    let mut body = String::from_str("{\"nodegroup\":");
    opts.append_json(&mut body);
    body.append("}");
    proof {
        assert(body@ =~= create_opts_root_json(opts@));
    }
    let path = build_nodegroups_path(cluster_id);
    client.new_request(Method::Post, path.as_str(), Some(body))
}

/// Build the request that deletes one nodegroup of a cluster.
pub fn delete_request(client: &Client, cluster_id: &str, nodegroup_id: &str) -> (r: Result<
    Request,
    MKSError,
>)
    ensures
        new_request_result(
            client@,
            Method::Delete,
            nodegroup_path(cluster_id@, nodegroup_id@),
            None,
            r,
        ),
{
    let path = build_nodegroup_path(cluster_id, nodegroup_id);
    client.new_request(Method::Delete, path.as_str(), None)
}

/// Build the request that resizes one nodegroup of a cluster; its body is
/// the resize options under the `nodegroup` envelope key.
pub fn resize_request(
    client: &Client,
    cluster_id: &str,
    nodegroup_id: &str,
    opts: &ResizeOpts,
) -> (r: Result<Request, MKSError>)
    ensures
        new_request_result(
            client@,
            Method::Post,
            resize_path(cluster_id@, nodegroup_id@),
            Some(resize_opts_root_json(opts@)),
            r,
        ),
{
    let mut body = String::from_str("{\"nodegroup\":");
    body.append("{\"desired\":");
    append_dec(&mut body, opts.desired() as u64);
    body.append("}");
    body.append("}");
    proof {
        assert(body@ =~= resize_opts_root_json(opts@));
    }
    let mut path = build_nodegroup_path(cluster_id, nodegroup_id);
    path.append("/resize");
    client.new_request(Method::Post, path.as_str(), Some(body))
}

/// Build the request that updates one nodegroup of a cluster; its body is
/// the update options under the `nodegroup` envelope key.
pub fn update_request(
    client: &Client,
    cluster_id: &str,
    nodegroup_id: &str,
    opts: &UpdateOpts,
) -> (r: Result<Request, MKSError>)
    ensures
        new_request_result(
            client@,
            Method::Put,
            nodegroup_path(cluster_id@, nodegroup_id@),
            Some(update_opts_root_json(opts@)),
            r,
        ),
{
    let mut body = String::from_str("{\"nodegroup\":");
    opts.append_json(&mut body);
    body.append("}");
    proof {
        assert(body@ =~= update_opts_root_json(opts@));
    }
    let path = build_nodegroup_path(cluster_id, nodegroup_id);
    client.new_request(Method::Put, path.as_str(), Some(body))
}

/// The nodegroup record a get-response body denotes: well-formed JSON
/// holding an object whose `nodegroup` field is a nodegroup record.
pub open spec fn nodegroup_of_body(b: Seq<char>) -> Option<NodegroupModel> {
    match spec_json(b) {
        Some(JsonModel::Obj(fields)) => match obj_lookup(fields, "nodegroup"@) {
            Some(j) => nodegroup_of_json(j),
            _ => None,
        },
        _ => None,
    }
}

/// The nodegroup records a list-response body denotes: well-formed JSON
/// holding an object whose `nodegroups` field is an array of nodegroup
/// records.
pub open spec fn nodegroups_of_body(b: Seq<char>) -> Option<Seq<NodegroupModel>> {
    match spec_json(b) {
        Some(JsonModel::Obj(fields)) => match obj_lookup(fields, "nodegroups"@) {
            Some(JsonModel::Arr(items)) => nodegroups_of_items(items),
            _ => None,
        },
        _ => None,
    }
}

/// Decode the body of a get-nodegroup response, or report
/// `DeserializeError` carrying the raw body unchanged.
pub fn parse_nodegroup_body(body: String) -> (r: Result<Nodegroup, MKSError>)
    ensures
        match r {
            Ok(nodegroup) => nodegroup_of_body(body@) == Some(nodegroup@),
            Err(e) => {
                &&& nodegroup_of_body(body@) is None
                &&& e matches MKSError::DeserializeError(cause, raw) && cause@
                    == decode_failure_text(body@) && raw@ == body@
            },
        },
{
    let parsed = match parse_json_text(body.as_str()) {
        Some(j) => j,
        None => {
            return Err(
                MKSError::DeserializeError(String::from_str("malformed JSON text"), body),
            );
        },
    };
    let nodegroup = match &parsed {
        Json::Obj(fields) => match lookup(fields, "nodegroup") {
            Some(j) => nodegroup_from_json(j),
            None => None,
        },
        _ => None,
    };
    match nodegroup {
        Some(nodegroup) => Ok(nodegroup),
        None => Err(
            MKSError::DeserializeError(String::from_str("unexpected document structure"), body),
        ),
    }
}

/// Decode the body of a list-nodegroups response, or report
/// `DeserializeError` carrying the raw body unchanged.
pub fn parse_list_body(body: String) -> (r: Result<Vec<Nodegroup>, MKSError>)
    ensures
        match r {
            Ok(nodegroups) => nodegroups_of_body(body@) is Some && nodegroup_views(nodegroups@)
                == nodegroups_of_body(body@).unwrap(),
            Err(e) => {
                &&& nodegroups_of_body(body@) is None
                &&& e matches MKSError::DeserializeError(cause, raw) && cause@
                    == decode_failure_text(body@) && raw@ == body@
            },
        },
{
    let parsed = match parse_json_text(body.as_str()) {
        Some(j) => j,
        None => {
            return Err(
                MKSError::DeserializeError(String::from_str("malformed JSON text"), body),
            );
        },
    };
    let nodegroups = match &parsed {
        Json::Obj(fields) => match lookup(fields, "nodegroups") {
            Some(Json::Arr(items)) => nodegroups_from_items(items),
            _ => None,
        },
        _ => None,
    };
    match nodegroups {
        Some(nodegroups) => Ok(nodegroups),
        None => Err(
            MKSError::DeserializeError(String::from_str("unexpected document structure"), body),
        ),
    }
}

} // verus!
