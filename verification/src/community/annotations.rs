//! Annotations Module

use vstd::prelude::*;

use crate::common::api::{Api, ApiV};
use crate::common::error::{GrafanaError, GrafanaErrorV};
use crate::common::json::{
    JsonData, json_of, parse_value, spec_str_field, spec_u64_field, str_field, u64_field,
    value_as_array, value_is_obj, value_model,
};
use crate::common::text::{dec_str, u64_to_dec};

verus! {

/// Default number of annotations a listing asks for.
pub const ANNOTATION_LIMIT: u16 = 25;

/// Ghost model of an [`AnnotationsModel`].
pub ghost struct AnnotationsModelV {
    /// Dashboard id
    pub dashboard_id: u32,
    /// Panel id
    pub panel_id: u32,
    /// Annotation text
    pub text: Seq<char>,
}

/// Annotations Model
#[derive(Debug, PartialEq)]
pub struct AnnotationsModel {
    /// Id of the dashboard the annotation sits on
    pub dashboard_id: u32,
    /// Id of the panel the annotation sits on
    pub panel_id: u32,
    /// Annotation text
    pub text: String,
}

impl View for AnnotationsModel {
    type V = AnnotationsModelV;

    open spec fn view(&self) -> AnnotationsModelV {
        AnnotationsModelV {
            dashboard_id: self.dashboard_id,
            panel_id: self.panel_id,
            text: self.text@,
        }
    }
}

impl DeepView for AnnotationsModel {
    type V = AnnotationsModelV;

    open spec fn deep_view(&self) -> AnnotationsModelV {
        self.view()
    }
}

impl Clone for AnnotationsModel {
    /// Clones are equal to the original.
    fn clone(&self) -> (r: Self)
        ensures
            r == *self,
    {
        AnnotationsModel {
            dashboard_id: self.dashboard_id,
            panel_id: self.panel_id,
            text: self.text.clone(),
        }
    }
}

/// Decoding of an annotation from a JSON document: an object with required
/// `dashboardId`, `panelId` and `text` members.
pub open spec fn spec_annotation_of(j: JsonData) -> Option<AnnotationsModelV> {
    match j {
        JsonData::Obj(m) => match (
            spec_u64_field(m, "dashboardId"@, u32::MAX as u64),
            spec_u64_field(m, "panelId"@, u32::MAX as u64),
            spec_str_field(m, "text"@),
        ) {
            (Some(d), Some(p), Some(t)) => Some(
                AnnotationsModelV { dashboard_id: d as u32, panel_id: p as u32, text: t },
            ),
            _ => None,
        },
        _ => None,
    }
}

/// Whether every element of `a` decodes as an annotation.
pub open spec fn all_annotations(a: Seq<JsonData>) -> bool {
    forall|i: int| 0 <= i < a.len() ==> spec_annotation_of(a[i]) is Some
}

/// The models of a sequence of annotation documents.
pub open spec fn annotations_of(a: Seq<JsonData>) -> Seq<AnnotationsModelV> {
    a.map_values(|j: JsonData| spec_annotation_of(j)->0)
}

/// Decoding of an annotation list from a JSON document.
pub open spec fn spec_annotation_list_of(j: JsonData) -> Option<Seq<AnnotationsModelV>> {
    match j {
        JsonData::Arr(a) => if all_annotations(a) {
            Some(annotations_of(a))
        } else {
            None
        },
        _ => None,
    }
}

/// Decodes an annotation from a JSON value.
pub fn annotation_from_value(v: &serde_json::Value) -> (r: Result<AnnotationsModel, ()>)
    ensures
        match spec_annotation_of(value_model(*v)) {
            Some(m) => r is Ok && r->Ok_0@ == m,
            None => r is Err,
        },
{
    if !value_is_obj(v) {
        return Err(());
    }
    let dashboard_id = match u64_field(v, "dashboardId", u32::MAX as u64) {
        Ok(n) => n,
        Err(_) => {
            return Err(());
        },
    };
    let panel_id = match u64_field(v, "panelId", u32::MAX as u64) {
        Ok(n) => n,
        Err(_) => {
            return Err(());
        },
    };
    let text = match str_field(v, "text") {
        Ok(t) => t,
        Err(_) => {
            return Err(());
        },
    };
    Ok(AnnotationsModel { dashboard_id: dashboard_id as u32, panel_id: panel_id as u32, text })
}

/// Ghost model of an [`Annotations`] API value.
pub ghost struct AnnotationsV {
    /// Transport description
    pub api: ApiV,
    /// Pending annotation models, if any are attached
    pub models: Option<Seq<AnnotationsModelV>>,
}

/// Annotations Structure
#[derive(Debug, PartialEq)]
pub struct Annotations {
    api: Api,
    models: Option<Vec<AnnotationsModel>>,
}

impl View for Annotations {
    type V = AnnotationsV;

    closed spec fn view(&self) -> AnnotationsV {
        AnnotationsV { api: self.api@, models: self.models.deep_view() }
    }
}

/// Copies an optional vector of annotation models.
fn clone_opt_annotation_models(o: &Option<Vec<AnnotationsModel>>) -> (r: Option<
    Vec<AnnotationsModel>,
>)
    ensures
        r.deep_view() == o.deep_view(),
{
    match o {
        Some(v) => {
            let r = crate::common::cloning::clone_vec_exact(v);
            proof {
                assert(r.deep_view() =~= v.deep_view());
            }
            Some(r)
        },
        None => None,
    }
}

impl Clone for Annotations {
    /// Clones have the same model as the original.
    fn clone(&self) -> (r: Self)
        ensures
            r@ == self@,
    {
        Annotations { api: self.api.clone(), models: clone_opt_annotation_models(&self.models) }
    }
}

impl Annotations {
    /// The view of a freshly constructed Annotations API over `api`.
    pub open spec fn spec_new(api: ApiV) -> AnnotationsV {
        AnnotationsV { api, models: None }
    }

    /// Create new instance of Annotations API
    pub fn new(api: Api) -> (a: Annotations)
        ensures
            a@ == Annotations::spec_new(api@),
    {
        Annotations { api, models: None }
    }

    /// Add model to annotations API for creation
    pub fn with_model(self, model: AnnotationsModel) -> (a: Annotations)
        ensures
            a@ == (AnnotationsV { models: Some(seq![model@]), ..self@ }),
    {
        let models = vec![model];
        let a = Annotations { models: Some(models), ..self };
        proof {
            assert(a@.models->0 =~= seq![model@]);
        }
        a
    }

    /// Add annotation vector
    pub fn with_model_vec(self, model_vec: Vec<AnnotationsModel>) -> (a: Annotations)
        ensures
            a@ == (AnnotationsV { models: Some(model_vec.deep_view()), ..self@ }),
    {
        Annotations { models: Some(model_vec), ..self }
    }

    /// The request path of an annotation listing: the limit always appears,
    /// defaulted when the caller gives none, and the dashboard filter only
    /// when one is given.
    pub open spec fn spec_list_path(limit: Option<u16>, dashboard_id: Option<u16>) -> Seq<char> {
        let l: u16 = match limit {
            Some(l) => l,
            None => ANNOTATION_LIMIT,
        };
        let base = "annotations?limit="@ + dec_str(l as nat);
        match dashboard_id {
            Some(d) => base + "&dashboardId="@ + dec_str(d as nat),
            None => base,
        }
    }

    /// Build the request path of an annotation listing.
    pub fn list_path(limit: Option<u16>, dashboard_id: Option<u16>) -> (r: String)
        ensures
            r@ == Annotations::spec_list_path(limit, dashboard_id),
    {
        let l: u16 = match limit {
            Some(l) => l,
            None => ANNOTATION_LIMIT,
        };
        let mut r = String::from_str("annotations?limit=");
        let ls = u64_to_dec(l as u64);
        r.append(ls.as_str());
        match dashboard_id {
            Some(d) => {
                r.append("&dashboardId=");
                let ds = u64_to_dec(d as u64);
                r.append(ds.as_str());
            },
            None => {},
        }
        r
    }

    /// Decode the response body of an annotation listing.
    pub fn parse_list_response(body: &str) -> (r: Result<Vec<AnnotationsModel>, GrafanaError>)
        ensures
            match json_of(body@) {
                Some(j) => match spec_annotation_list_of(j) {
                    Some(l) => r is Ok && r->Ok_0.deep_view() == l,
                    None => r is Err && r->Err_0@ == (GrafanaErrorV {
                        message: "Could not decode response"@,
                        status: "ERROR"@,
                    }),
                },
                None => r is Err && r->Err_0@.status == "ERROR"@,
            },
    {
        let v = match parse_value(body) {
            Ok(v) => v,
            Err(e) => {
                return Err(GrafanaError::new(e, String::from_str("ERROR")));
            },
        };
        let ghost j = value_model(v);
        match value_as_array(&v) {
            None => Err(
                GrafanaError::new(
                    String::from_str("Could not decode response"),
                    String::from_str("ERROR"),
                ),
            ),
            Some(items) => {
                let ghost a = j->Arr_0;
                let mut out: Vec<AnnotationsModel> = Vec::new();
                let mut i: usize = 0;
                while i < items.len()
                    invariant
                        i <= items@.len(),
                        items@.len() == a.len(),
                        forall|k: int|
                            0 <= k < a.len() ==> value_model(#[trigger] items@[k]) == a[k],
                        forall|k: int| 0 <= k < i ==> spec_annotation_of(a[k]) is Some,
                        out@.len() == i,
                        forall|k: int|
                            0 <= k < i ==> #[trigger] out.deep_view()[k] == spec_annotation_of(
                                a[k],
                            )->0,
                        j is Arr,
                        a == j->Arr_0,
                        json_of(body@) == Some(j),
                    decreases items@.len() - i,
                {
                    match annotation_from_value(&items[i]) {
                        Ok(m) => {
                            let ghost prevv = out@;
                            let ghost prevdv = out.deep_view();
                            let ghost ev = m;
                            out.push(m);
                            proof {
                                assert(out@ == prevv.push(ev));
                                assert forall|k: int| 0 <= k <= i implies #[trigger] out
                                    .deep_view()[k] == spec_annotation_of(a[k])->0 by {
                                    assert(prevv.push(ev)[k] == out@[k]);
                                    if k < i {
                                        assert(prevdv[k] == spec_annotation_of(a[k])->0);
                                        assert(prevdv[k] == prevv[k].deep_view());
                                        assert(out.deep_view()[k] == prevv[k].deep_view());
                                    } else {
                                        assert(out@[k] == ev);
                                        assert(out.deep_view()[k] == ev.deep_view());
                                    }
                                }
                            }
                        },
                        Err(_) => {
                            proof {
                                assert(spec_annotation_of(a[i as int]) is None);
                                assert(!all_annotations(a));
                            }
                            return Err(
                                GrafanaError::new(
                                    String::from_str("Could not decode response"),
                                    String::from_str("ERROR"),
                                ),
                            );
                        },
                    }
                    i = i + 1;
                }
                proof {
                    assert(all_annotations(a));
                    assert(out.deep_view() =~~= annotations_of(a));
                }
                Ok(out)
            },
        }
    }
}

} // verus!
