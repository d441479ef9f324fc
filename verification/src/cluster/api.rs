//! Requests and response decoding for cluster resources.

use vstd::prelude::*;
use vstd::string::StringExecFns;

use crate::error::MKSError;
use crate::json::{
    decode_failure_text, lookup, obj_lookup, parse_json_text, spec_json, Json, JsonModel,
};
use crate::{new_request_result, Client, Method, Request};
use super::schemas::{
    cluster_from_json, cluster_of_json, cluster_views, clusters_from_items, clusters_of_items,
    create_opts_root_json, Cluster, ClusterModel, CreateOpts,
};

verus! {

/// The resource path of the cluster collection.
pub open spec fn clusters_path() -> Seq<char> {
    "/v1/clusters"@
}

/// The resource path of one cluster.
pub open spec fn cluster_path(cluster_id: Seq<char>) -> Seq<char> {
    "/v1/clusters/"@ + cluster_id
}

fn build_cluster_path(cluster_id: &str) -> (r: String)
    ensures
        r@ == cluster_path(cluster_id@),
{
    let mut p = String::from_str("/v1/clusters/");
    p.append(cluster_id);
    p
}

/// Build the request that fetches one cluster.
pub fn get_cluster_request(client: &Client, cluster_id: &str) -> (r: Result<Request, MKSError>)
    ensures
        new_request_result(client@, Method::Get, cluster_path(cluster_id@), None, r),
{
    let path = build_cluster_path(cluster_id);
    client.new_request(Method::Get, path.as_str(), None)
}

/// Build the request that lists all clusters.
pub fn list_clusters_request(client: &Client) -> (r: Result<Request, MKSError>)
    ensures
        new_request_result(client@, Method::Get, clusters_path(), None, r),
{
    client.new_request(Method::Get, "/v1/clusters", None)
}

/// Build the request that creates a cluster; its body is the create
/// options under the `cluster` envelope key.
pub fn create_cluster_request(client: &Client, opts: &CreateOpts) -> (r: Result<
    Request,
    MKSError,
>)
    ensures
        new_request_result(
            client@,
            Method::Post,
            clusters_path(),
            Some(create_opts_root_json(opts@)),
            r,
        ),
{
    let mut body = String::from_str("{\"cluster\":");
    opts.append_json(&mut body);
    body.append("}");
    proof {
        assert(body@ =~= create_opts_root_json(opts@));
    }
    client.new_request(Method::Post, "/v1/clusters", Some(body))
}

/// Build the request that deletes one cluster.
pub fn delete_cluster_request(client: &Client, cluster_id: &str) -> (r: Result<Request, MKSError>)
    ensures
        new_request_result(client@, Method::Delete, cluster_path(cluster_id@), None, r),
{
    let path = build_cluster_path(cluster_id);
    client.new_request(Method::Delete, path.as_str(), None)
}

/// The cluster record a get-response body denotes: well-formed JSON
/// holding an object whose `cluster` field is a cluster record.
pub open spec fn cluster_of_body(b: Seq<char>) -> Option<ClusterModel> {
    match spec_json(b) {
        Some(JsonModel::Obj(fields)) => match obj_lookup(fields, "cluster"@) {
            Some(j) => cluster_of_json(j),
            _ => None,
        },
        _ => None,
    }
}

/// The cluster records a list-response body denotes: well-formed JSON
/// holding an object whose `clusters` field is an array of cluster
/// records.
pub open spec fn clusters_of_body(b: Seq<char>) -> Option<Seq<ClusterModel>> {
    match spec_json(b) {
        Some(JsonModel::Obj(fields)) => match obj_lookup(fields, "clusters"@) {
            Some(JsonModel::Arr(items)) => clusters_of_items(items),
            _ => None,
        },
        _ => None,
    }
}

/// Decode the body of a get-cluster or create-cluster response, or report
/// `DeserializeError` carrying the raw body unchanged.
pub fn parse_cluster_body(body: String) -> (r: Result<Cluster, MKSError>)
    ensures
        match r {
            Ok(cluster) => cluster_of_body(body@) == Some(cluster@),
            Err(e) => {
                &&& cluster_of_body(body@) is None
                &&& e matches MKSError::DeserializeError(cause, raw) && cause@
                    == decode_failure_text(body@) && raw@ == body@
            },
        },
{
    let parsed = match parse_json_text(body.as_str()) {
        Some(j) => j,
        None => {
            return Err(
                MKSError::DeserializeError(String::from_str("malformed JSON text"), body),
            );
        },
    };
    let cluster = match &parsed {
        Json::Obj(fields) => match lookup(fields, "cluster") {
            Some(j) => cluster_from_json(j),
            None => None,
        },
        _ => None,
    };
    match cluster {
        Some(cluster) => Ok(cluster),
        None => Err(
            MKSError::DeserializeError(String::from_str("unexpected document structure"), body),
        ),
    }
}

/// Decode the body of a list-clusters response, or report
/// `DeserializeError` carrying the raw body unchanged.
pub fn parse_list_body(body: String) -> (r: Result<Vec<Cluster>, MKSError>)
    ensures
        match r {
            Ok(clusters) => clusters_of_body(body@) is Some && cluster_views(clusters@)
                == clusters_of_body(body@).unwrap(),
            Err(e) => {
                &&& clusters_of_body(body@) is None
                &&& e matches MKSError::DeserializeError(cause, raw) && cause@
                    == decode_failure_text(body@) && raw@ == body@
            },
        },
{
    let parsed = match parse_json_text(body.as_str()) {
        Some(j) => j,
        None => {
            return Err(
                MKSError::DeserializeError(String::from_str("malformed JSON text"), body),
            );
        },
    };
    let clusters = match &parsed {
        Json::Obj(fields) => match lookup(fields, "clusters") {
            Some(Json::Arr(items)) => clusters_from_items(items),
            _ => None,
        },
        _ => None,
    };
    match clusters {
        Some(clusters) => Ok(clusters),
        None => Err(
            MKSError::DeserializeError(String::from_str("unexpected document structure"), body),
        ),
    }
}

} // verus!
