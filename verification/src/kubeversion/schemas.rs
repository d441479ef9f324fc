//! Schemas for Kubernetes-version resources.

use vstd::prelude::*;

use crate::json::{items_model, lemma_items_model, lookup, obj_lookup, Json, JsonModel};

verus! {

/// KubeVersion represents a deserialized Kubernetes version body from an
/// API response.
pub struct KubeVersion {
    /// The supported Kubernetes version, in "X.Y.Z" form.
    pub version: String,
    /// Whether this Kubernetes version is the default one.
    pub is_default: bool,
}

/// The mathematical model of a [`KubeVersion`].
pub struct KubeVersionModel {
    pub version: Seq<char>,
    pub is_default: bool,
}

impl View for KubeVersion {
    type V = KubeVersionModel;

    open spec fn view(&self) -> KubeVersionModel {
        KubeVersionModel { version: self.version@, is_default: self.is_default }
    }
}

/// KubeVersionsRoot represents a list of deserialized Kubernetes versions.
pub struct KubeVersionsRoot {
    pub kube_versions: Vec<KubeVersion>,
}

/// The models of a sequence of version records.
pub open spec fn kube_version_views(vs: Seq<KubeVersion>) -> Seq<KubeVersionModel> {
    Seq::new(vs.len(), |i: int| vs[i]@)
}

/// The version record a JSON value denotes, when it has the expected shape.
pub open spec fn kube_version_of_json(j: JsonModel) -> Option<KubeVersionModel> {
    match j {
        JsonModel::Obj(fields) => match (
            obj_lookup(fields, "version"@),
            obj_lookup(fields, "is_default"@),
        ) {
            (Some(JsonModel::Str(version)), Some(JsonModel::Bool(is_default))) => Some(
                KubeVersionModel { version, is_default },
            ),
            _ => None,
        },
        _ => None,
    }
}

/// The version records a JSON array denotes, when every element has the
/// expected shape.
pub open spec fn kube_versions_of_items(items: Seq<JsonModel>) -> Option<Seq<KubeVersionModel>>
    decreases items.len(),
{
    if items.len() == 0 {
        Some(Seq::empty())
    } else {
        match (kube_versions_of_items(items.drop_last()), kube_version_of_json(items.last())) {
            (Some(done), Some(v)) => Some(done.push(v)),
            _ => None,
        }
    }
}

/// A version-record list denotes a value iff every element does, and then
/// element-wise.
pub proof fn lemma_kube_versions_of_items(items: Seq<JsonModel>)
    ensures
        kube_versions_of_items(items) is Some <==> (forall|i: int|
            0 <= i < items.len() ==> #[trigger] kube_version_of_json(items[i]) is Some),
        kube_versions_of_items(items) is Some ==> {
            let r = kube_versions_of_items(items).unwrap();
            &&& r.len() == items.len()
            &&& forall|i: int|
                0 <= i < items.len() ==> r[i] == #[trigger] kube_version_of_json(
                    items[i],
                ).unwrap()
        },
    decreases items.len(),
{
    if items.len() > 0 {
        lemma_kube_versions_of_items(items.drop_last());
        assert(items.drop_last().len() == items.len() - 1);
        assert(forall|i: int| 0 <= i < items.len() - 1 ==> items.drop_last()[i] == items[i]);
        assert(items.last() == items[items.len() - 1]);
        if kube_versions_of_items(items) is Some {
            let done = kube_versions_of_items(items.drop_last()).unwrap();
            let full = done.push(kube_version_of_json(items.last()).unwrap());
            assert(kube_versions_of_items(items) == Some(full));
            assert(full.len() == done.len() + 1);
            assert forall|i: int|
                0 <= i < items.len() implies kube_versions_of_items(items).unwrap()[i]
                == #[trigger] kube_version_of_json(items[i]).unwrap() by {
                if i < items.len() - 1 {
                    assert(full[i] == done[i]);
                } else {
                    assert(full[i] == kube_version_of_json(items.last()).unwrap());
                }
            }
        }
    }
}

/// Decode one version record from a JSON value.
pub fn kube_version_from_json(j: &Json) -> (r: Option<KubeVersion>)
    ensures
        match r {
            Some(v) => kube_version_of_json(j@) == Some(v@),
            None => kube_version_of_json(j@) is None,
        },
{
    match j {
        Json::Obj(fields) => {
            let version = match lookup(fields, "version") {
                Some(Json::Str(s)) => s.clone(),
                _ => {
                    return None;
                },
            };
            let is_default = match lookup(fields, "is_default") {
                Some(Json::Bool(b)) => *b,
                _ => {
                    return None;
                },
            };
            Some(KubeVersion { version, is_default })
        },
        _ => None,
    }
}

/// Decode a list of version records from the elements of a JSON array.
pub fn kube_versions_from_items(items: &Vec<Json>) -> (r: Option<Vec<KubeVersion>>)
    ensures
        match r {
            Some(vs) => kube_versions_of_items(items_model(items@)) == Some(
                kube_version_views(vs@),
            ),
            None => kube_versions_of_items(items_model(items@)) is None,
        },
{
    let ghost models = items_model(items@);
    proof {
        lemma_items_model(items@);
        lemma_kube_versions_of_items(models);
    }
    let mut out: Vec<KubeVersion> = Vec::new();
    let mut idx: usize = 0;
    while idx < items.len()
        invariant
            idx <= items@.len(),
            models == items_model(items@),
            models.len() == items@.len(),
            forall|k: int| 0 <= k < items@.len() ==> models[k] == items@[k]@,
            kube_versions_of_items(models) is Some <==> (forall|i: int|
                0 <= i < models.len() ==> #[trigger] kube_version_of_json(models[i]) is Some),
            kube_versions_of_items(models) is Some ==> {
                let r = kube_versions_of_items(models).unwrap();
                &&& r.len() == models.len()
                &&& forall|i: int|
                    0 <= i < models.len() ==> r[i] == #[trigger] kube_version_of_json(
                        models[i],
                    ).unwrap()
            },
            out@.len() == idx,
            forall|k: int|
                0 <= k < idx ==> #[trigger] kube_version_of_json(models[k]) == Some(out@[k]@),
        decreases items@.len() - idx,
    {
        match kube_version_from_json(&items[idx]) {
            Some(v) => {
                out.push(v);
            },
            None => {
                proof {
                    assert(kube_version_of_json(models[idx as int]) is None);
                }
                return None;
            },
        }
        idx += 1;
    }
    proof {
        assert forall|i: int|
            0 <= i < models.len() implies #[trigger] kube_version_of_json(models[i]) is Some by {
            assert(kube_version_of_json(models[i]) == Some(out@[i]@));
        }
        assert(kube_versions_of_items(models) is Some);
        assert(kube_versions_of_items(models).unwrap().len() == models.len());
        assert forall|i: int|
            0 <= i < models.len() implies kube_versions_of_items(models).unwrap()[i]
            == kube_version_views(out@)[i] by {
            assert(kube_version_of_json(models[i]) == Some(out@[i]@));
            assert(kube_versions_of_items(models).unwrap()[i] == kube_version_of_json(
                models[i],
            ).unwrap());
        }
        assert(kube_versions_of_items(models).unwrap() =~= kube_version_views(out@));
    }
    Some(out)
}

} // verus!
