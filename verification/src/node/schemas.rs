//! Schemas for node resources.

use vstd::prelude::*;

use crate::json::{
    items_model, lemma_items_model, lookup, obj_lookup, opt_string_from_json, opt_string_of_json,
    Json, JsonModel,
};
use crate::opt_text;

verus! {

/// Node represents a deserialized node body from an API response.
pub struct Node {
    /// Node identifier.
    pub id: String,
    /// Timestamp in UTC timezone of when the node has been created.
    pub created_at: String,
    /// Timestamp in UTC timezone of when the node has been updated.
    pub updated_at: Option<String>,
    /// Node hostname.
    pub hostname: String,
    /// IP address of the node.
    pub ip: String,
    /// Nodegroup identifier.
    pub nodegroup_id: String,
}

/// The mathematical model of a [`Node`].
pub struct NodeModel {
    pub id: Seq<char>,
    pub created_at: Seq<char>,
    pub updated_at: Option<Seq<char>>,
    pub hostname: Seq<char>,
    pub ip: Seq<char>,
    pub nodegroup_id: Seq<char>,
}

impl View for Node {
    type V = NodeModel;

    open spec fn view(&self) -> NodeModel {
        NodeModel {
            id: self.id@,
            created_at: self.created_at@,
            updated_at: opt_text(self.updated_at),
            hostname: self.hostname@,
            ip: self.ip@,
            nodegroup_id: self.nodegroup_id@,
        }
    }
}

/// NodeRoot represents a root of a deserialized node.
pub struct NodeRoot {
    pub node: Node,
}

/// The models of a sequence of node records.
pub open spec fn node_views(vs: Seq<Node>) -> Seq<NodeModel> {
    Seq::new(vs.len(), |i: int| vs[i]@)
}

/// The node record a JSON value denotes, when it has the expected shape.
pub open spec fn node_of_json(j: JsonModel) -> Option<NodeModel> {
    match j {
        JsonModel::Obj(fields) => {
            match (
                obj_lookup(fields, "id"@),
                obj_lookup(fields, "created_at"@),
                obj_lookup(fields, "updated_at"@),
                obj_lookup(fields, "hostname"@),
                obj_lookup(fields, "ip"@),
                obj_lookup(fields, "nodegroup_id"@),
            ) {
                (
                    Some(JsonModel::Str(id)),
                    Some(JsonModel::Str(created_at)),
                    Some(updated),
                    Some(JsonModel::Str(hostname)),
                    Some(JsonModel::Str(ip)),
                    Some(JsonModel::Str(nodegroup_id)),
                ) => match opt_string_of_json(updated) {
                    Some(updated_at) => Some(
                        NodeModel { id, created_at, updated_at, hostname, ip, nodegroup_id },
                    ),
                    None => None,
                },
                _ => None,
            }
        },
        _ => None,
    }
}

/// Decode one node record from a JSON value.
pub fn node_from_json(j: &Json) -> (r: Option<Node>)
    ensures
        match r {
            Some(v) => node_of_json(j@) == Some(v@),
            None => node_of_json(j@) is None,
        },
{
    match j {
        Json::Obj(fields) => {
            let id = match lookup(fields, "id") {
                Some(Json::Str(s)) => s.clone(),
                _ => {
                    return None;
                },
            };
            let created_at = match lookup(fields, "created_at") {
                Some(Json::Str(s)) => s.clone(),
                _ => {
                    return None;
                },
            };
            let updated_at = match lookup(fields, "updated_at") {
                Some(value) => match opt_string_from_json(value) {
                    Some(o) => o,
                    None => {
                        return None;
                    },
                },
                None => {
                    return None;
                },
            };
            let hostname = match lookup(fields, "hostname") {
                Some(Json::Str(s)) => s.clone(),
                _ => {
                    return None;
                },
            };
            let ip = match lookup(fields, "ip") {
                Some(Json::Str(s)) => s.clone(),
                _ => {
                    return None;
                },
            };
            let nodegroup_id = match lookup(fields, "nodegroup_id") {
                Some(Json::Str(s)) => s.clone(),
                _ => {
                    return None;
                },
            };
            Some(Node { id, created_at, updated_at, hostname, ip, nodegroup_id })
        },
        _ => None,
    }
}

/// The node records a JSON array denotes, when every element has the
/// expected shape.
pub open spec fn nodes_of_items(items: Seq<JsonModel>) -> Option<Seq<NodeModel>>
    decreases items.len(),
{
    if items.len() == 0 {
        Some(Seq::empty())
    } else {
        match (nodes_of_items(items.drop_last()), node_of_json(items.last())) {
            (Some(done), Some(v)) => Some(done.push(v)),
            _ => None,
        }
    }
}

/// A node list denotes a value iff every element does, and then
/// element-wise.
pub proof fn lemma_nodes_of_items(items: Seq<JsonModel>)
    ensures
        nodes_of_items(items) is Some <==> (forall|i: int|
            0 <= i < items.len() ==> #[trigger] node_of_json(items[i]) is Some),
        nodes_of_items(items) is Some ==> {
            let r = nodes_of_items(items).unwrap();
            &&& r.len() == items.len()
            &&& forall|i: int|
                0 <= i < items.len() ==> r[i] == #[trigger] node_of_json(items[i]).unwrap()
        },
    decreases items.len(),
{
    if items.len() > 0 {
        lemma_nodes_of_items(items.drop_last());
        assert(forall|i: int| 0 <= i < items.len() - 1 ==> items.drop_last()[i] == items[i]);
        assert(items.last() == items[items.len() - 1]);
        if nodes_of_items(items) is Some {
            let done = nodes_of_items(items.drop_last()).unwrap();
            let full = done.push(node_of_json(items.last()).unwrap());
            assert(nodes_of_items(items) == Some(full));
            assert(full.len() == done.len() + 1);
            assert forall|i: int|
                0 <= i < items.len() implies nodes_of_items(items).unwrap()[i]
                == #[trigger] node_of_json(items[i]).unwrap() by {
                if i < items.len() - 1 {
                    assert(full[i] == done[i]);
                } else {
                    assert(full[i] == node_of_json(items.last()).unwrap());
                }
            }
        }
    }
}

/// Decode a list of node records from the elements of a JSON array.
pub fn nodes_from_items(items: &Vec<Json>) -> (r: Option<Vec<Node>>)
    ensures
        match r {
            Some(vs) => nodes_of_items(items_model(items@)) == Some(node_views(vs@)),
            None => nodes_of_items(items_model(items@)) is None,
        },
{
    let ghost models = items_model(items@);
    proof {
        lemma_items_model(items@);
        lemma_nodes_of_items(models);
    }
    let mut out: Vec<Node> = Vec::new();
    let mut idx: usize = 0;
    while idx < items.len()
        invariant
            idx <= items@.len(),
            models == items_model(items@),
            models.len() == items@.len(),
            forall|k: int| 0 <= k < items@.len() ==> models[k] == items@[k]@,
            nodes_of_items(models) is Some <==> (forall|i: int|
                0 <= i < models.len() ==> #[trigger] node_of_json(models[i]) is Some),
            nodes_of_items(models) is Some ==> {
                let r = nodes_of_items(models).unwrap();
                &&& r.len() == models.len()
                &&& forall|i: int|
                    0 <= i < models.len() ==> r[i] == #[trigger] node_of_json(models[i]).unwrap()
            },
            out@.len() == idx,
            forall|k: int| 0 <= k < idx ==> #[trigger] node_of_json(models[k]) == Some(out@[k]@),
        decreases items@.len() - idx,
    {
        match node_from_json(&items[idx]) {
            Some(v) => {
                out.push(v);
            },
            None => {
                proof {
                    assert(node_of_json(models[idx as int]) is None);
                }
                return None;
            },
        }
        idx += 1;
    }
    proof {
        assert forall|i: int|
            0 <= i < models.len() implies #[trigger] node_of_json(models[i]) is Some by {
            assert(node_of_json(models[i]) == Some(out@[i]@));
        }
        assert(nodes_of_items(models) is Some);
        assert(nodes_of_items(models).unwrap().len() == models.len());
        assert forall|i: int|
            0 <= i < models.len() implies nodes_of_items(models).unwrap()[i] == node_views(
            out@,
        )[i] by {
            assert(node_of_json(models[i]) == Some(out@[i]@));
            assert(nodes_of_items(models).unwrap()[i] == node_of_json(models[i]).unwrap());
        }
        assert(nodes_of_items(models).unwrap() =~= node_views(out@));
    }
    Some(out)
}

} // verus!
