//! Requests and response decoding for Kubernetes-version resources.

use vstd::prelude::*;
use vstd::string::StringExecFns;

use crate::error::MKSError;
use crate::json::{decode_failure_text, parse_json_text, spec_json, Json, JsonModel};
use crate::{new_request_result, Client, Method, Request};
use super::schemas::{
    kube_version_views, kube_versions_from_items, kube_versions_of_items, KubeVersion,
    KubeVersionModel,
};

verus! {

/// The resource path for listing all Kubernetes versions.
pub open spec fn list_path() -> Seq<char> {
    "/v1/kubeversions"@
}

/// Build the request that lists all Kubernetes versions.
pub fn list_request(client: &Client) -> (r: Result<Request, MKSError>)
    ensures
        new_request_result(client@, Method::Get, list_path(), None, r),
{
    client.new_request(Method::Get, "/v1/kubeversions", None)
}

/// The version records a list-response body denotes: the document must be
/// well-formed JSON holding an object whose `kube_versions` field is an
/// array of version records.
pub open spec fn versions_of_body(b: Seq<char>) -> Option<Seq<KubeVersionModel>> {
    match spec_json(b) {
        Some(JsonModel::Obj(fields)) => match crate::json::obj_lookup(fields, "kube_versions"@) {
            Some(JsonModel::Arr(items)) => kube_versions_of_items(items),
            _ => None,
        },
        _ => None,
    }
}

/// Decode the body of a list response into its version records, or report
/// `DeserializeError` carrying the raw body unchanged.
pub fn parse_list_body(body: String) -> (r: Result<Vec<KubeVersion>, MKSError>)
    ensures
        match r {
            Ok(versions) => versions_of_body(body@) is Some && kube_version_views(versions@)
                == versions_of_body(body@).unwrap(),
            Err(e) => {
                &&& versions_of_body(body@) is None
                &&& e matches MKSError::DeserializeError(cause, raw) && cause@
                    == decode_failure_text(body@) && raw@ == body@
            },
        },
{
    let parsed = match parse_json_text(body.as_str()) {
        Some(j) => j,
        None => {
            return Err(
                MKSError::DeserializeError(String::from_str("malformed JSON text"), body),
            );
        },
    };
    let versions = match &parsed {
        Json::Obj(fields) => match crate::json::lookup(fields, "kube_versions") {
            Some(Json::Arr(items)) => kube_versions_from_items(items),
            _ => None,
        },
        _ => None,
    };
    match versions {
        Some(versions) => Ok(versions),
        None => Err(
            MKSError::DeserializeError(String::from_str("unexpected document structure"), body),
        ),
    }
}

} // verus!
