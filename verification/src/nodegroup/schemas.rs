//! Schemas for nodegroup resources.

use vstd::prelude::*;
use vstd::string::StringExecFns;

use crate::json::{
    append_bool, append_opt_string, append_opt_text_map, append_opt_u32, append_quoted, bool_json,
    items_model, lemma_items_model, lookup, obj_lookup, opt_string_from_json, opt_string_json,
    opt_string_of_json, opt_text_map_json, opt_u32_json, pairs_model, quoted,
    text_map_from_fields, text_map_of_fields, Json, JsonModel,
};
use crate::opt_text;
use crate::text::{append_dec, dec_str};
use super::super::node::schemas::{node_views, nodes_from_items, nodes_of_items, Node, NodeModel};

verus! {

/// Nodegroup represents a deserialized nodegroup body from an API response.
pub struct Nodegroup {
    /// Nodegroup identifier.
    pub id: String,
    /// Timestamp in UTC timezone of when the nodegroup has been created.
    pub created_at: String,
    /// Timestamp in UTC timezone of when the nodegroup has been updated.
    pub updated_at: Option<String>,
    /// Cluster identifier.
    pub cluster_id: String,
    /// OpenStack flavor identifier for all nodes in the nodegroup.
    pub flavor_id: String,
    /// Initial volume size in GB for each node.
    pub volume_gb: u32,
    /// Initial blockstorage volume type for each node.
    pub volume_type: String,
    /// Flag that represents if nodes use local volume.
    pub local_volume: bool,
    /// OpenStack availability zone for all nodes in the nodegroup.
    pub availability_zone: String,
    /// All nodes in the nodegroup.
    pub nodes: Vec<Node>,
    /// A map of user-defined Kubernetes labels for each node in the group.
    pub labels: Vec<(String, String)>,
}

/// The mathematical model of a [`Nodegroup`].
pub struct NodegroupModel {
    pub id: Seq<char>,
    pub created_at: Seq<char>,
    pub updated_at: Option<Seq<char>>,
    pub cluster_id: Seq<char>,
    pub flavor_id: Seq<char>,
    pub volume_gb: u32,
    pub volume_type: Seq<char>,
    pub local_volume: bool,
    pub availability_zone: Seq<char>,
    pub nodes: Seq<NodeModel>,
    pub labels: Seq<(Seq<char>, Seq<char>)>,
}

impl View for Nodegroup {
    type V = NodegroupModel;

    open spec fn view(&self) -> NodegroupModel {
        NodegroupModel {
            id: self.id@,
            created_at: self.created_at@,
            updated_at: opt_text(self.updated_at),
            cluster_id: self.cluster_id@,
            flavor_id: self.flavor_id@,
            volume_gb: self.volume_gb,
            volume_type: self.volume_type@,
            local_volume: self.local_volume,
            availability_zone: self.availability_zone@,
            nodes: node_views(self.nodes@),
            labels: pairs_model(self.labels@),
        }
    }
}

/// NodegroupRoot represents a root of a deserialized nodegroup.
pub struct NodegroupRoot {
    pub nodegroup: Nodegroup,
}

/// ListRoot represents a root of a list with deserialized nodegroups.
pub struct ListRoot {
    pub nodegroups: Vec<Nodegroup>,
}

/// The models of a sequence of nodegroup records.
pub open spec fn nodegroup_views(vs: Seq<Nodegroup>) -> Seq<NodegroupModel> {
    Seq::new(vs.len(), |i: int| vs[i]@)
}

/// The nodegroup record a JSON value denotes, when it has the expected
/// shape.
pub open spec fn nodegroup_of_json(j: JsonModel) -> Option<NodegroupModel> {
    match j {
        JsonModel::Obj(fields) => {
            match (
                obj_lookup(fields, "id"@),
                obj_lookup(fields, "created_at"@),
                obj_lookup(fields, "updated_at"@),
                obj_lookup(fields, "cluster_id"@),
                obj_lookup(fields, "flavor_id"@),
                obj_lookup(fields, "volume_gb"@),
            ) {
                (
                    Some(JsonModel::Str(id)),
                    Some(JsonModel::Str(created_at)),
                    Some(updated),
                    Some(JsonModel::Str(cluster_id)),
                    Some(JsonModel::Str(flavor_id)),
                    Some(JsonModel::UInt(volume_gb)),
                ) => {
                    match (
                        obj_lookup(fields, "volume_type"@),
                        obj_lookup(fields, "local_volume"@),
                        obj_lookup(fields, "availability_zone"@),
                        obj_lookup(fields, "nodes"@),
                        obj_lookup(fields, "labels"@),
                    ) {
                        (
                            Some(JsonModel::Str(volume_type)),
                            Some(JsonModel::Bool(local_volume)),
                            Some(JsonModel::Str(availability_zone)),
                            Some(JsonModel::Arr(node_items)),
                            Some(JsonModel::Obj(label_fields)),
                        ) => {
                            match (
                                opt_string_of_json(updated),
                                nodes_of_items(node_items),
                                text_map_of_fields(label_fields),
                            ) {
                                (Some(updated_at), Some(nodes), Some(labels)) => {
                                    if volume_gb <= u32::MAX as u64 {
                                        Some(
                                            NodegroupModel {
                                                id,
                                                created_at,
                                                updated_at,
                                                cluster_id,
                                                flavor_id,
                                                volume_gb: volume_gb as u32,
                                                volume_type,
                                                local_volume,
                                                availability_zone,
                                                nodes,
                                                labels,
                                            },
                                        )
                                    } else {
                                        None
                                    }
                                },
                                _ => None,
                            }
                        },
                        _ => None,
                    }
                },
                _ => None,
            }
        },
        _ => None,
    }
}

/// Decode one nodegroup record from a JSON value.
pub fn nodegroup_from_json(j: &Json) -> (r: Option<Nodegroup>)
    ensures
        match r {
            Some(v) => nodegroup_of_json(j@) == Some(v@),
            None => nodegroup_of_json(j@) is None,
        },
{
    match j {
        Json::Obj(fields) => {
            let id = match lookup(fields, "id") {
                Some(Json::Str(s)) => s.clone(),
                _ => {
                    return None;
                },
            };
            let created_at = match lookup(fields, "created_at") {
                Some(Json::Str(s)) => s.clone(),
                _ => {
                    return None;
                },
            };
            let updated_at = match lookup(fields, "updated_at") {
                Some(value) => match opt_string_from_json(value) {
                    Some(o) => o,
                    None => {
                        return None;
                    },
                },
                None => {
                    return None;
                },
            };
            let cluster_id = match lookup(fields, "cluster_id") {
                Some(Json::Str(s)) => s.clone(),
                _ => {
                    return None;
                },
            };
            let flavor_id = match lookup(fields, "flavor_id") {
                Some(Json::Str(s)) => s.clone(),
                _ => {
                    return None;
                },
            };
            let volume_gb = match lookup(fields, "volume_gb") {
                Some(Json::UInt(n)) => {
                    if *n <= u32::MAX as u64 {
                        *n as u32
                    } else {
                        return None;
                    }
                },
                _ => {
                    return None;
                },
            };
            let volume_type = match lookup(fields, "volume_type") {
                Some(Json::Str(s)) => s.clone(),
                _ => {
                    return None;
                },
            };
            let local_volume = match lookup(fields, "local_volume") {
                Some(Json::Bool(b)) => *b,
                _ => {
                    return None;
                },
            };
            let availability_zone = match lookup(fields, "availability_zone") {
                Some(Json::Str(s)) => s.clone(),
                _ => {
                    return None;
                },
            };
            let nodes = match lookup(fields, "nodes") {
                Some(Json::Arr(items)) => match nodes_from_items(items) {
                    Some(nodes) => nodes,
                    None => {
                        return None;
                    },
                },
                _ => {
                    return None;
                },
            };
            let labels = match lookup(fields, "labels") {
                Some(Json::Obj(label_fields)) => match text_map_from_fields(label_fields) {
                    Some(labels) => labels,
                    None => {
                        return None;
                    },
                },
                _ => {
                    return None;
                },
            };
            Some(
                Nodegroup {
                    id,
                    created_at,
                    updated_at,
                    cluster_id,
                    flavor_id,
                    volume_gb,
                    volume_type,
                    local_volume,
                    availability_zone,
                    nodes,
                    labels,
                },
            )
        },
        _ => None,
    }
}

/// The nodegroup records a JSON array denotes, when every element has the
/// expected shape.
pub open spec fn nodegroups_of_items(items: Seq<JsonModel>) -> Option<Seq<NodegroupModel>>
    decreases items.len(),
{
    if items.len() == 0 {
        Some(Seq::empty())
    } else {
        match (nodegroups_of_items(items.drop_last()), nodegroup_of_json(items.last())) {
            (Some(done), Some(v)) => Some(done.push(v)),
            _ => None,
        }
    }
}

/// A nodegroup list denotes a value iff every element does, and then
/// element-wise.
pub proof fn lemma_nodegroups_of_items(items: Seq<JsonModel>)
    ensures
        nodegroups_of_items(items) is Some <==> (forall|i: int|
            0 <= i < items.len() ==> #[trigger] nodegroup_of_json(items[i]) is Some),
        nodegroups_of_items(items) is Some ==> {
            let r = nodegroups_of_items(items).unwrap();
            &&& r.len() == items.len()
            &&& forall|i: int|
                0 <= i < items.len() ==> r[i] == #[trigger] nodegroup_of_json(items[i]).unwrap()
        },
    decreases items.len(),
{
    if items.len() > 0 {
        lemma_nodegroups_of_items(items.drop_last());
        assert(forall|i: int| 0 <= i < items.len() - 1 ==> items.drop_last()[i] == items[i]);
        assert(items.last() == items[items.len() - 1]);
        if nodegroups_of_items(items) is Some {
            let done = nodegroups_of_items(items.drop_last()).unwrap();
            let full = done.push(nodegroup_of_json(items.last()).unwrap());
            assert(nodegroups_of_items(items) == Some(full));
            assert(full.len() == done.len() + 1);
            assert forall|i: int|
                0 <= i < items.len() implies nodegroups_of_items(items).unwrap()[i]
                == #[trigger] nodegroup_of_json(items[i]).unwrap() by {
                if i < items.len() - 1 {
                    assert(full[i] == done[i]);
                } else {
                    assert(full[i] == nodegroup_of_json(items.last()).unwrap());
                }
            }
        }
    }
}

/// Decode a list of nodegroup records from the elements of a JSON array.
pub fn nodegroups_from_items(items: &Vec<Json>) -> (r: Option<Vec<Nodegroup>>)
    ensures
        match r {
            Some(vs) => nodegroups_of_items(items_model(items@)) == Some(nodegroup_views(vs@)),
            None => nodegroups_of_items(items_model(items@)) is None,
        },
{
    let ghost models = items_model(items@);
    proof {
        lemma_items_model(items@);
        lemma_nodegroups_of_items(models);
    }
    let mut out: Vec<Nodegroup> = Vec::new();
    let mut idx: usize = 0;
    while idx < items.len()
        invariant
            idx <= items@.len(),
            models == items_model(items@),
            models.len() == items@.len(),
            forall|k: int| 0 <= k < items@.len() ==> models[k] == items@[k]@,
            nodegroups_of_items(models) is Some <==> (forall|i: int|
                0 <= i < models.len() ==> #[trigger] nodegroup_of_json(models[i]) is Some),
            nodegroups_of_items(models) is Some ==> {
                let r = nodegroups_of_items(models).unwrap();
                &&& r.len() == models.len()
                &&& forall|i: int|
                    0 <= i < models.len() ==> r[i] == #[trigger] nodegroup_of_json(
                        models[i],
                    ).unwrap()
            },
            out@.len() == idx,
            forall|k: int|
                0 <= k < idx ==> #[trigger] nodegroup_of_json(models[k]) == Some(out@[k]@),
        decreases items@.len() - idx,
    {
        match nodegroup_from_json(&items[idx]) {
            Some(v) => {
                out.push(v);
            },
            None => {
                proof {
                    assert(nodegroup_of_json(models[idx as int]) is None);
                }
                return None;
            },
        }
        idx += 1;
    }
    proof {
        assert forall|i: int|
            0 <= i < models.len() implies #[trigger] nodegroup_of_json(models[i]) is Some by {
            assert(nodegroup_of_json(models[i]) == Some(out@[i]@));
        }
        assert(nodegroups_of_items(models) is Some);
        assert(nodegroups_of_items(models).unwrap().len() == models.len());
        assert forall|i: int|
            0 <= i < models.len() implies nodegroups_of_items(models).unwrap()[i]
            == nodegroup_views(out@)[i] by {
            assert(nodegroup_of_json(models[i]) == Some(out@[i]@));
            assert(nodegroups_of_items(models).unwrap()[i] == nodegroup_of_json(
                models[i],
            ).unwrap());
        }
        assert(nodegroups_of_items(models).unwrap() =~= nodegroup_views(out@));
    }
    Some(out)
}

/// Create options for a new nodegroup.
pub struct CreateOpts {
    count: u32,
    flavor_id: Option<String>,
    cpus: Option<u32>,
    ram_mb: Option<u32>,
    volume_gb: Option<u32>,
    volume_type: Option<String>,
    local_volume: bool,
    keypair_name: Option<String>,
    affinity_policy: Option<String>,
    availability_zone: String,
    labels: Option<Vec<(String, String)>>,
}

/// The mathematical model of nodegroup [`CreateOpts`].
pub struct CreateOptsModel {
    pub count: u32,
    pub flavor_id: Option<Seq<char>>,
    pub cpus: Option<u32>,
    pub ram_mb: Option<u32>,
    pub volume_gb: Option<u32>,
    pub volume_type: Option<Seq<char>>,
    pub local_volume: bool,
    pub keypair_name: Option<Seq<char>>,
    pub affinity_policy: Option<Seq<char>>,
    pub availability_zone: Seq<char>,
    pub labels: Option<Seq<(Seq<char>, Seq<char>)>>,
}

impl View for CreateOpts {
    type V = CreateOptsModel;

    closed spec fn view(&self) -> CreateOptsModel {
        CreateOptsModel {
            count: self.count,
            flavor_id: opt_text(self.flavor_id),
            cpus: self.cpus,
            ram_mb: self.ram_mb,
            volume_gb: self.volume_gb,
            volume_type: opt_text(self.volume_type),
            local_volume: self.local_volume,
            keypair_name: opt_text(self.keypair_name),
            affinity_policy: opt_text(self.affinity_policy),
            availability_zone: self.availability_zone@,
            labels: match self.labels {
                Some(l) => Some(pairs_model(l@)),
                None => None,
            },
        }
    }
}

impl CreateOpts {
    /// Begin create options from the required fields.
    pub fn new(count: u32, local_volume: bool, availability_zone: String) -> (r: CreateOpts)
        ensures
            r@ == (CreateOptsModel {
                count,
                flavor_id: None,
                cpus: None,
                ram_mb: None,
                volume_gb: None,
                volume_type: None,
                local_volume,
                keypair_name: None,
                affinity_policy: None,
                availability_zone: availability_zone@,
                labels: None,
            }),
    {
        CreateOpts {
            count,
            flavor_id: None,
            cpus: None,
            ram_mb: None,
            volume_gb: None,
            volume_type: None,
            local_volume,
            keypair_name: None,
            affinity_policy: None,
            availability_zone,
            labels: None,
        }
    }

    /// Add a reference to a pre-created flavor.
    /// It can be omitted in most cases.
    pub fn with_flavor_id(self, flavor_id: String) -> (r: CreateOpts)
        ensures
            r@ == (CreateOptsModel { flavor_id: Some(flavor_id@), ..self@ }),
    {
        CreateOpts { flavor_id: Some(flavor_id), ..self }
    }

    /// Add a CPU count for each node.
    /// It can be omitted only in cases when flavor_id is set.
    pub fn with_cpus(self, cpus: u32) -> (r: CreateOpts)
        ensures
            r@ == (CreateOptsModel { cpus: Some(cpus), ..self@ }),
    {
        CreateOpts { cpus: Some(cpus), ..self }
    }

    /// Add a RAM count in MB for each node.
    /// It can be omitted only in cases when flavor_id is set.
    pub fn with_ram_mb(self, ram_mb: u32) -> (r: CreateOpts)
        ensures
            r@ == (CreateOptsModel { ram_mb: Some(ram_mb), ..self@ }),
    {
        CreateOpts { ram_mb: Some(ram_mb), ..self }
    }

    /// Add a volume size in GB for each node.
    /// It can be omitted only in cases when flavor_id is set and volume is
    /// local.
    pub fn with_volume_gb(self, volume_gb: u32) -> (r: CreateOpts)
        ensures
            r@ == (CreateOptsModel { volume_gb: Some(volume_gb), ..self@ }),
    {
        CreateOpts { volume_gb: Some(volume_gb), ..self }
    }

    /// Add a blockstorage volume type for each node.
    /// It can be omitted only in cases when flavor_id is set and volume is
    /// local.
    pub fn with_volume_type(self, volume_type: String) -> (r: CreateOpts)
        ensures
            r@ == (CreateOptsModel { volume_type: Some(volume_type@), ..self@ }),
    {
        CreateOpts { volume_type: Some(volume_type), ..self }
    }

    /// Add a name of the SSH key that will be added to all nodes.
    pub fn with_keypair_name(self, keypair_name: String) -> (r: CreateOpts)
        ensures
            r@ == (CreateOptsModel { keypair_name: Some(keypair_name@), ..self@ }),
    {
        CreateOpts { keypair_name: Some(keypair_name), ..self }
    }

    /// Add an optional parameter to tune nodes affinity.
    pub fn with_affinity_policy(self, affinity_policy: String) -> (r: CreateOpts)
        ensures
            r@ == (CreateOptsModel { affinity_policy: Some(affinity_policy@), ..self@ }),
    {
        CreateOpts { affinity_policy: Some(affinity_policy), ..self }
    }

    /// Add a map of user-defined Kubernetes labels for each node in the
    /// group.
    pub fn with_labels(self, labels: Vec<(String, String)>) -> (r: CreateOpts)
        ensures
            r@ == (CreateOptsModel { labels: Some(pairs_model(labels@)), ..self@ }),
    {
        CreateOpts { labels: Some(labels), ..self }
    }

    /// Append this record's JSON form to `out`.
    #[verifier::rlimit(60)]
    pub fn append_json(&self, out: &mut String)
        ensures
            final(out)@ == old(out)@ + create_opts_json(self@),
    {
        out.append("{\"count\":");
        append_dec(out, self.count as u64);
        out.append(",\"flavor_id\":");
        append_opt_string(out, &self.flavor_id);
        out.append(",\"cpus\":");
        append_opt_u32(out, &self.cpus);
        out.append(",\"ram_mb\":");
        append_opt_u32(out, &self.ram_mb);
        out.append(",\"volume_gb\":");
        append_opt_u32(out, &self.volume_gb);
        out.append(",\"volume_type\":");
        append_opt_string(out, &self.volume_type);
        out.append(",\"local_volume\":");
        append_bool(out, self.local_volume);
        out.append(",\"keypair_name\":");
        append_opt_string(out, &self.keypair_name);
        out.append(",\"affinity_policy\":");
        append_opt_string(out, &self.affinity_policy);
        out.append(",\"availability_zone\":");
        append_quoted(out, self.availability_zone.as_str());
        out.append(",\"labels\":");
        append_opt_text_map(out, &self.labels);
        out.append("}");
        proof {
            assert(out@ =~= old(out)@ + create_opts_json(self@));
        }
    }
}

/// How nodegroup create options are written as JSON, fields in declaration
/// order, absent options as `null`.
pub open spec fn create_opts_json(o: CreateOptsModel) -> Seq<char> {
    "{\"count\":"@ + dec_str(o.count as int) + ",\"flavor_id\":"@ + opt_string_json(o.flavor_id)
        + ",\"cpus\":"@ + opt_u32_json(o.cpus) + ",\"ram_mb\":"@ + opt_u32_json(o.ram_mb)
        + ",\"volume_gb\":"@ + opt_u32_json(o.volume_gb) + ",\"volume_type\":"@ + opt_string_json(
        o.volume_type,
    ) + ",\"local_volume\":"@ + bool_json(o.local_volume) + ",\"keypair_name\":"@
        + opt_string_json(o.keypair_name) + ",\"affinity_policy\":"@ + opt_string_json(
        o.affinity_policy,
    ) + ",\"availability_zone\":"@ + quoted(o.availability_zone) + ",\"labels\":"@
        + opt_text_map_json(o.labels) + "}"@
}

/// How nodegroup create options are wrapped for the wire: under the
/// `nodegroup` envelope key.
pub open spec fn create_opts_root_json(o: CreateOptsModel) -> Seq<char> {
    "{\"nodegroup\":"@ + create_opts_json(o) + "}"@
}

/// CreateOptsRoot represents a root of nodegroup create options.
pub struct CreateOptsRoot {
    pub nodegroup: CreateOpts,
}

impl CreateOptsRoot {
    /// The serialized JSON body for this envelope.
    pub fn body(&self) -> (r: String)
        ensures
            r@ == create_opts_root_json(self.nodegroup@),
    {
        let mut out = String::from_str("{\"nodegroup\":");
        self.nodegroup.append_json(&mut out);
        out.append("}");
        proof {
            assert(out@ =~= create_opts_root_json(self.nodegroup@));
        }
        out
    }
}

/// Options for the nodegroup resize operation.
pub struct ResizeOpts {
    desired: u32,
}

/// The mathematical model of [`ResizeOpts`].
pub struct ResizeOptsModel {
    pub desired: u32,
}

impl View for ResizeOpts {
    type V = ResizeOptsModel;

    closed spec fn view(&self) -> ResizeOptsModel {
        ResizeOptsModel { desired: self.desired }
    }
}

impl ResizeOpts {
    /// Resize options for the desired node count.
    pub fn new(desired: u32) -> (r: ResizeOpts)
        ensures
            r@ == (ResizeOptsModel { desired }),
    {
        ResizeOpts { desired }
    }

    /// The desired node count.
    pub fn desired(&self) -> (r: u32)
        ensures
            r == self@.desired,
    {
        self.desired
    }
}

/// How resize options are written as JSON.
pub open spec fn resize_opts_json(o: ResizeOptsModel) -> Seq<char> {
    "{\"desired\":"@ + dec_str(o.desired as int) + "}"@
}

/// How resize options are wrapped for the wire: under the `nodegroup`
/// envelope key.
pub open spec fn resize_opts_root_json(o: ResizeOptsModel) -> Seq<char> {
    "{\"nodegroup\":"@ + resize_opts_json(o) + "}"@
}

/// Options for the nodegroup update operation.
pub struct UpdateOpts {
    labels: Option<Vec<(String, String)>>,
}

/// The mathematical model of [`UpdateOpts`].
pub struct UpdateOptsModel {
    pub labels: Option<Seq<(Seq<char>, Seq<char>)>>,
}

impl View for UpdateOpts {
    type V = UpdateOptsModel;

    closed spec fn view(&self) -> UpdateOptsModel {
        UpdateOptsModel {
            labels: match self.labels {
                Some(l) => Some(pairs_model(l@)),
                None => None,
            },
        }
    }
}

impl UpdateOpts {
    /// Begin empty update options.
    pub fn new() -> (r: UpdateOpts)
        ensures
            r@ == (UpdateOptsModel { labels: None }),
    {
        UpdateOpts { labels: None }
    }

    /// Update user-defined Kubernetes labels for each node in the group.
    pub fn with_labels(self, labels: Vec<(String, String)>) -> (r: UpdateOpts)
        ensures
            r@ == (UpdateOptsModel { labels: Some(pairs_model(labels@)) }),
    {
        UpdateOpts { labels: Some(labels) }
    }

    /// Append this record's JSON form to `out`.
    pub fn append_json(&self, out: &mut String)
        ensures
            final(out)@ == old(out)@ + update_opts_json(self@),
    {
        out.append("{\"labels\":");
        append_opt_text_map(out, &self.labels);
        out.append("}");
        proof {
            assert(out@ =~= old(out)@ + update_opts_json(self@));
        }
    }
}

impl Default for UpdateOpts {
    fn default() -> (r: Self)
        ensures
            r@ == (UpdateOptsModel { labels: None }),
    {
        UpdateOpts::new()
    }
}

/// How update options are written as JSON.
pub open spec fn update_opts_json(o: UpdateOptsModel) -> Seq<char> {
    "{\"labels\":"@ + opt_text_map_json(o.labels) + "}"@
}

/// How update options are wrapped for the wire: under the `nodegroup`
/// envelope key.
pub open spec fn update_opts_root_json(o: UpdateOptsModel) -> Seq<char> {
    "{\"nodegroup\":"@ + update_opts_json(o) + "}"@
}

/// UpdateOptsRoot represents a root of nodegroup update options.
pub struct UpdateOptsRoot {
    pub nodegroup: UpdateOpts,
}

impl UpdateOptsRoot {
    /// The serialized JSON body for this envelope.
    pub fn body(&self) -> (r: String)
        ensures
            r@ == update_opts_root_json(self.nodegroup@),
    {
        let mut out = String::from_str("{\"nodegroup\":");
        self.nodegroup.append_json(&mut out);
        out.append("}");
        proof {
            assert(out@ =~= update_opts_root_json(self.nodegroup@));
        }
        out
    }
}

/// A rendered resize body parses back to its own JSON value: the envelope
/// object holds the `nodegroup` key, whose object holds exactly the
/// desired count under `desired`.  The renderer and the parser agree on
/// this record.
pub proof fn lemma_resize_body_round_trip(o: ResizeOptsModel)
    ensures
        crate::json::spec_json(resize_opts_root_json(o)) == Some(
            JsonModel::Obj(
                seq![
                    (
                        "nodegroup"@,
                        JsonModel::Obj(seq![("desired"@, JsonModel::UInt(o.desired as u64))]),
                    ),
                ],
            ),
        ),
{
    broadcast use vstd::string::group_string_axioms;

    let d: u64 = o.desired as u64;
    let num = dec_str(d as int);
    let dl = num.len() as int;
    let lit1 = "{\"nodegroup\":"@;
    let lit2 = "{\"desired\":"@;
    let close = "}"@;
    let key1 = "nodegroup"@;
    let key2 = "desired"@;
    let inner = resize_opts_json(o);
    let text = resize_opts_root_json(o);
    reveal_strlit("{\"nodegroup\":");
    reveal_strlit("{\"desired\":");
    reveal_strlit("}");
    reveal_strlit("nodegroup");
    reveal_strlit("desired");
    assert(lit1.len() == 13);
    assert(lit2.len() == 11);
    assert(close.len() == 1);
    assert(key1.len() == 9);
    assert(key2.len() == 7);
    assert(inner == lit2 + num + close);
    assert(text == lit1 + inner + close);
    assert(inner.len() == 12 + dl);
    assert(text.len() == 26 + dl);
    crate::json::lemma_dec_str_digits(d as int);
    assert(num.len() > 0);

    // The characters of the fixed skeleton.
    assert forall|k: int| 0 <= k < 13 implies text[k] == lit1[k] by {
        assert(text[k] == (lit1 + inner + close)[k]);
    }
    assert forall|k: int| 0 <= k < 12 + dl implies text[13 + k] == inner[k] by {
        assert(text[13 + k] == (lit1 + inner + close)[13 + k]);
    }
    assert forall|k: int| 0 <= k < 11 implies inner[k] == lit2[k] by {
        assert(inner[k] == (lit2 + num + close)[k]);
    }
    assert forall|k: int| 0 <= k < dl implies inner[11 + k] == num[k] by {
        assert(inner[11 + k] == (lit2 + num + close)[11 + k]);
    }
    assert(inner[11 + dl] == close[0]) by {
        assert(inner[11 + dl] == (lit2 + num + close)[11 + dl]);
    }
    assert(text[25 + dl] == close[0]) by {
        assert(text[25 + dl] == (lit1 + inner + close)[25 + dl]);
    }
    assert(text[24 + dl] == '}');
    assert(text[25 + dl] == '}');

    // The first key parses back.
    crate::json::lemma_escaped_plain(key1);
    assert(crate::json::escaped(key1).len() == 9);
    assert forall|k: int|
        0 <= k < 10 implies #[trigger] text.subrange(2, 12)[k] == (crate::json::escaped(key1)
        + seq!['"'])[k] by {
        assert(text.subrange(2, 12)[k] == text[2 + k]);
        if k < 9 {
            assert(text[2 + k] == lit1[2 + k]);
            assert(lit1[2 + k] == key1[k]);
        } else {
            assert(text[2 + k] == lit1[11]);
        }
    }
    assert(text.subrange(2, 12) =~= crate::json::escaped(key1) + seq!['"']);
    crate::json::lemma_string_rest_of_escaped(text, 2, key1);
    assert(crate::json::spec_string_rest(text, 2) == Some((key1, 12int)));

    // The colon and the inner opening brace.
    assert(text[12] == ':');
    assert(!crate::json::json_ws(':'));
    assert(crate::json::spec_colon(text, 12) == Some(13int));
    assert(text[13] == '{');
    assert(crate::json::spec_skip_ws(text, 13) == 13);

    // The second key parses back.
    assert(text[14] == '"');
    crate::json::lemma_escaped_plain(key2);
    assert(crate::json::escaped(key2).len() == 7);
    assert forall|k: int|
        0 <= k < 8 implies #[trigger] text.subrange(15, 23)[k] == (crate::json::escaped(key2)
        + seq!['"'])[k] by {
        assert(text.subrange(15, 23)[k] == text[15 + k]);
        assert(text[15 + k] == inner[2 + k]);
        assert(inner[2 + k] == lit2[2 + k]);
        if k < 7 {
            assert(lit2[2 + k] == key2[k]);
        }
    }
    assert(text.subrange(15, 23) =~= crate::json::escaped(key2) + seq!['"']);
    crate::json::lemma_string_rest_of_escaped(text, 15, key2);
    assert(crate::json::spec_string_rest(text, 15) == Some((key2, 23int)));
    assert(text[23] == ':');
    assert(crate::json::spec_colon(text, 23) == Some(24int));

    // The number parses back.
    assert forall|k: int| 0 <= k < dl implies #[trigger] text.subrange(24, 24 + dl)[k] == num[k]
        by {
        assert(text.subrange(24, 24 + dl)[k] == text[24 + k]);
        assert(text[24 + k] == inner[11 + k]);
    }
    assert(text.subrange(24, 24 + dl) =~= num);
    assert(!crate::json::json_digit('}'));
    crate::json::lemma_number_at(text, 24, d);
    assert(crate::json::spec_number(text, 24) == Some((d, 24 + dl)));
    assert(crate::json::json_digit(text[24])) by {
        assert(text[24] == num[0]);
    }
    assert(!crate::json::json_ws(text[24]));
    assert(crate::json::spec_skip_ws(text, 24) == 24);
    assert(text[24] != 'n' && text[24] != 't' && text[24] != 'f' && text[24] != '"' && text[24]
        != '[' && text[24] != '{');
    assert(crate::json::spec_value(text, 24) == Some((JsonModel::UInt(d), 24 + dl)));

    // The inner object closes.
    assert(crate::json::spec_list_sep(text, 24 + dl, '}') == Some((true, 25 + dl)));
    assert(!crate::json::json_ws('"'));
    assert(crate::json::spec_members(text, 14) == Some(
        (seq![(key2, JsonModel::UInt(d))], 25 + dl),
    ));
    assert(crate::json::spec_skip_ws(text, 14) == 14);
    assert(text[crate::json::spec_skip_ws(text, 14)] != '}');
    assert(crate::json::spec_value(text, 13) == Some(
        (JsonModel::Obj(seq![(key2, JsonModel::UInt(d))]), 25 + dl),
    ));

    // The outer object closes.
    assert(crate::json::spec_list_sep(text, 25 + dl, '}') == Some((true, 26 + dl)));
    assert(crate::json::spec_members(text, 1) == Some(
        (
            seq![(key1, JsonModel::Obj(seq![(key2, JsonModel::UInt(d))]))],
            26 + dl,
        ),
    ));
    assert(text[1] == '"');
    assert(crate::json::spec_skip_ws(text, 1) == 1);
    assert(text[crate::json::spec_skip_ws(text, 1)] != '}');
    assert(text[0] == '{');
    assert(crate::json::spec_value(text, 0) == Some(
        (
            JsonModel::Obj(seq![(key1, JsonModel::Obj(seq![(key2, JsonModel::UInt(d))]))]),
            26 + dl,
        ),
    ));
    assert(crate::json::spec_skip_ws(text, 0) == 0);
    assert(crate::json::spec_skip_ws(text, 26 + dl) == 26 + dl);
}

} // verus!
