//! Requests and response decoding for node resources.

use vstd::prelude::*;
use vstd::string::StringExecFns;

use crate::error::MKSError;
use crate::json::{decode_failure_text, lookup, obj_lookup, parse_json_text, spec_json, Json, JsonModel};
use crate::{new_request_result, Client, Method, Request};
use super::schemas::{node_from_json, node_of_json, Node, NodeModel};

verus! {

/// The resource path of one node of a cluster's nodegroup.
pub open spec fn node_path(
    cluster_id: Seq<char>,
    nodegroup_id: Seq<char>,
    node_id: Seq<char>,
) -> Seq<char> {
    "/v1/clusters/"@ + cluster_id + "/nodegroups/"@ + nodegroup_id + "/"@ + node_id
}

/// The resource path of a node's reinstall action.
pub open spec fn reinstall_path(
    cluster_id: Seq<char>,
    nodegroup_id: Seq<char>,
    node_id: Seq<char>,
) -> Seq<char> {
    node_path(cluster_id, nodegroup_id, node_id) + "/reinstall"@
}

fn build_node_path(cluster_id: &str, nodegroup_id: &str, node_id: &str) -> (r: String)
    ensures
        r@ == node_path(cluster_id@, nodegroup_id@, node_id@),
{
    let mut p = String::from_str("/v1/clusters/");
    p.append(cluster_id);
    p.append("/nodegroups/");
    p.append(nodegroup_id);
    p.append("/");
    p.append(node_id);
    proof {
        assert(p@ =~= node_path(cluster_id@, nodegroup_id@, node_id@));
    }
    p
}

/// Build the request that fetches one node.
pub fn get_node_request(
    client: &Client,
    cluster_id: &str,
    nodegroup_id: &str,
    node_id: &str,
) -> (r: Result<Request, MKSError>)
    ensures
        new_request_result(
            client@,
            Method::Get,
            node_path(cluster_id@, nodegroup_id@, node_id@),
            None,
            r,
        ),
{
    let path = build_node_path(cluster_id, nodegroup_id, node_id);
    client.new_request(Method::Get, path.as_str(), None)
}

/// Build the request that asks for a node to be reinstalled.
pub fn reinstall_node_request(
    client: &Client,
    cluster_id: &str,
    nodegroup_id: &str,
    node_id: &str,
) -> (r: Result<Request, MKSError>)
    ensures
        new_request_result(
            client@,
            Method::Post,
            reinstall_path(cluster_id@, nodegroup_id@, node_id@),
            None,
            r,
        ),
{
    let mut path = build_node_path(cluster_id, nodegroup_id, node_id);
    path.append("/reinstall");
    client.new_request(Method::Post, path.as_str(), None)
}

/// The node record a get-response body denotes: well-formed JSON holding an
/// object whose `node` field is a node record.
pub open spec fn node_of_body(b: Seq<char>) -> Option<NodeModel> {
    match spec_json(b) {
        Some(JsonModel::Obj(fields)) => match obj_lookup(fields, "node"@) {
            Some(j) => node_of_json(j),
            _ => None,
        },
        _ => None,
    }
}

/// Decode the body of a get-node response, or report `DeserializeError`
/// carrying the raw body unchanged.
pub fn parse_node_body(body: String) -> (r: Result<Node, MKSError>)
    ensures
        match r {
            Ok(node) => node_of_body(body@) == Some(node@),
            Err(e) => {
                &&& node_of_body(body@) is None
                &&& e matches MKSError::DeserializeError(cause, raw) && cause@
                    == decode_failure_text(body@) && raw@ == body@
            },
        },
{
    let parsed = match parse_json_text(body.as_str()) {
        Some(j) => j,
        None => {
            return Err(
                MKSError::DeserializeError(String::from_str("malformed JSON text"), body),
            );
        },
    };
    let node = match &parsed {
        Json::Obj(fields) => match lookup(fields, "node") {
            Some(j) => node_from_json(j),
            None => None,
        },
        _ => None,
    };
    match node {
        Some(node) => Ok(node),
        None => Err(
            MKSError::DeserializeError(String::from_str("unexpected document structure"), body),
        ),
    }
}

} // verus!
