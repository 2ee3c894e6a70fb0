//! Data Source Module
//!
//! Identifier (id) vs unique identifier (uid)
//! The identifier (id) of a dashboard is an auto-incrementing numeric value
//! and is only unique per Grafana install.  The unique identifier (uid) can
//! be used to identify a dashboard between multiple Grafana installs and can
//! have a maximum length of 40 characters.

use vstd::prelude::*;

use crate::common::api::{Api, ApiV};
use crate::common::cloning::clone_opt_string;
use crate::common::json::{
    JsonData, empty_obj, json_of, obj_insert, obj_new, opt_bool_field, opt_str_field,
    parse_value, spec_opt_bool_field, spec_opt_str_field, spec_str_field, str_field,
    value_as_array, value_is_obj, value_model, value_null, value_of_bool, value_of_obj,
    value_of_str,
};

verus! {

/// Ghost model of a [`DataSourceModel`].
pub ghost struct DataSourceModelV {
    /// Name text
    pub name: Seq<char>,
    /// Type text
    pub kind: Option<Seq<char>>,
    /// URL text
    pub url: Option<Seq<char>>,
    /// Basic-auth flag
    pub basic_auth: Option<bool>,
}

/// Data Source Model
#[derive(Debug, PartialEq)]
pub struct DataSourceModel {
    /// Data Source Name
    pub name: String,
    /// Data Source Type
    pub kind: Option<String>,
    /// Data Source URL
    pub url: Option<String>,
    /// Use Basic Auth?
    pub basic_auth: Option<bool>,
}

impl View for DataSourceModel {
    type V = DataSourceModelV;

    open spec fn view(&self) -> DataSourceModelV {
        DataSourceModelV {
            name: self.name@,
            kind: self.kind.deep_view(),
            url: self.url.deep_view(),
            basic_auth: self.basic_auth,
        }
    }
}

impl DeepView for DataSourceModel {
    type V = DataSourceModelV;

    open spec fn deep_view(&self) -> DataSourceModelV {
        self.view()
    }
}

impl Clone for DataSourceModel {
    /// Clones are equal to the original.
    fn clone(&self) -> (r: Self)
        ensures
            r == *self,
    {
        DataSourceModel {
            name: self.name.clone(),
            kind: clone_opt_string(&self.kind),
            url: clone_opt_string(&self.url),
            basic_auth: self.basic_auth,
        }
    }
}

/// Ghost model of a [`DataSourceBuilder`].
pub ghost struct DataSourceBuilderV {
    /// Name text
    pub name: Seq<char>,
    /// Type text
    pub kind: Option<Seq<char>>,
    /// URL text
    pub url: Option<Seq<char>>,
    /// Basic-auth flag
    pub basic_auth: bool,
}

/// Builder for Data Source Model
pub struct DataSourceBuilder {
    name: String,
    kind: Option<String>,
    url: Option<String>,
    basic_auth: bool,
}

impl View for DataSourceBuilder {
    type V = DataSourceBuilderV;

    closed spec fn view(&self) -> DataSourceBuilderV {
        DataSourceBuilderV {
            name: self.name@,
            kind: self.kind.deep_view(),
            url: self.url.deep_view(),
            basic_auth: self.basic_auth,
        }
    }
}

impl DataSourceBuilder {
    /// Create new instance of Data Source Builder
    pub fn new(name: String) -> (b: DataSourceBuilder)
        ensures
            b@ == (DataSourceBuilderV { name: name@, kind: None, url: None, basic_auth: false }),
    {
        DataSourceBuilder { name, kind: None, url: None, basic_auth: false }
    }

    /// Add URL to DataSource
    pub fn with_url(self, url: String) -> (b: DataSourceBuilder)
        ensures
            b@ == (DataSourceBuilderV { url: Some(url@), ..self@ }),
    {
        DataSourceBuilder { url: Some(url), ..self }
    }

    /// The model a builder produces: the accumulated fields, with the
    /// basic-auth flag always made explicit.
    pub open spec fn spec_build(b: DataSourceBuilderV) -> DataSourceModelV {
        DataSourceModelV { name: b.name, kind: b.kind, url: b.url, basic_auth: Some(b.basic_auth) }
    }

    /// Build a Data Source Model
    pub fn build(self) -> (m: DataSourceModel)
        ensures
            m@ == DataSourceBuilder::spec_build(self@),
    {
        DataSourceModel {
            name: self.name,
            kind: self.kind,
            url: self.url,
            basic_auth: Some(self.basic_auth),
        }
    }
}

/// Decoding of a data source from a JSON document: an object with a
/// required `name` member and optional `type`, `url` and `basic_auth`
/// members.
pub open spec fn spec_datasource_of(j: JsonData) -> Option<DataSourceModelV> {
    match j {
        JsonData::Obj(m) => match (
            spec_str_field(m, "name"@),
            spec_opt_str_field(m, "type"@),
            spec_opt_str_field(m, "url"@),
            spec_opt_bool_field(m, "basic_auth"@),
        ) {
            (Some(name), Some(kind), Some(url), Some(basic_auth)) => Some(
                DataSourceModelV { name, kind, url, basic_auth },
            ),
            _ => None,
        },
        _ => None,
    }
}

/// Whether every element of `a` decodes as a data source.
pub open spec fn all_datasources(a: Seq<JsonData>) -> bool {
    forall|i: int| 0 <= i < a.len() ==> spec_datasource_of(a[i]) is Some
}

/// The models of a sequence of data source documents.
pub open spec fn datasources_of(a: Seq<JsonData>) -> Seq<DataSourceModelV> {
    a.map_values(|j: JsonData| spec_datasource_of(j)->0)
}

/// Decoding of a data source list from a JSON document.
pub open spec fn spec_datasource_list_of(j: JsonData) -> Option<Seq<DataSourceModelV>> {
    match j {
        JsonData::Arr(a) => if all_datasources(a) {
            Some(datasources_of(a))
        } else {
            None
        },
        _ => None,
    }
}

/// The JSON document a data source model is encoded to: an object with the
/// four members, absent optional fields encoded as null.
pub open spec fn spec_datasource_to_json(m: DataSourceModelV) -> JsonData {
    JsonData::Obj(
        empty_obj().insert("name"@, JsonData::Str(m.name)).insert(
            "type"@,
            match m.kind {
                Some(k) => JsonData::Str(k),
                None => JsonData::Null,
            },
        ).insert(
            "url"@,
            match m.url {
                Some(u) => JsonData::Str(u),
                None => JsonData::Null,
            },
        ).insert(
            "basic_auth"@,
            match m.basic_auth {
                Some(b) => JsonData::Bool(b),
                None => JsonData::Null,
            },
        ),
    )
}

/// Encoding and decoding of a data source are inverse: decoding the
/// document a model encodes to yields that model back, with `name`, `url`,
/// `type` and `basic_auth` preserved exactly.
pub proof fn lemma_datasource_round_trip(m: DataSourceModelV)
    ensures
        spec_datasource_of(spec_datasource_to_json(m)) == Some(m),
{
    reveal_strlit("name");
    reveal_strlit("type");
    reveal_strlit("url");
    reveal_strlit("basic_auth");
    assert("name"@[0] == 'n' && "type"@[0] == 't' && "url"@[0] == 'u' && "basic_auth"@[0]
        == 'b');
    assert("name"@ != "type"@ && "name"@ != "url"@ && "name"@ != "basic_auth"@);
    assert("type"@ != "url"@ && "type"@ != "basic_auth"@);
    assert("url"@ != "basic_auth"@);
}

/// Decodes a data source from a JSON value.
pub fn datasource_from_value(v: &serde_json::Value) -> (r: Result<DataSourceModel, ()>)
    ensures
        match spec_datasource_of(value_model(*v)) {
            Some(m) => r is Ok && r->Ok_0@ == m,
            None => r is Err,
        },
{
    if !value_is_obj(v) {
        return Err(());
    }
    let name = match str_field(v, "name") {
        Ok(n) => n,
        Err(_) => {
            return Err(());
        },
    };
    let kind = match opt_str_field(v, "type") {
        Ok(o) => o,
        Err(_) => {
            return Err(());
        },
    };
    let url = match opt_str_field(v, "url") {
        Ok(o) => o,
        Err(_) => {
            return Err(());
        },
    };
    let basic_auth = match opt_bool_field(v, "basic_auth") {
        Ok(o) => o,
        Err(_) => {
            return Err(());
        },
    };
    Ok(DataSourceModel { name, kind, url, basic_auth })
}

impl DataSourceModel {
    /// Encode the model as a JSON value, for submission as a create
    /// payload.
    pub fn to_json_value(&self) -> (r: serde_json::Value)
        ensures
            value_model(r) == spec_datasource_to_json(self@),
    {
        let mut obj = obj_new();
        obj_insert(&mut obj, "name", value_of_str(self.name.as_str()));
        match &self.kind {
            Some(k) => obj_insert(&mut obj, "type", value_of_str(k.as_str())),
            None => obj_insert(&mut obj, "type", value_null()),
        }
        match &self.url {
            Some(u) => obj_insert(&mut obj, "url", value_of_str(u.as_str())),
            None => obj_insert(&mut obj, "url", value_null()),
        }
        match self.basic_auth {
            Some(b) => obj_insert(&mut obj, "basic_auth", value_of_bool(b)),
            None => obj_insert(&mut obj, "basic_auth", value_null()),
        }
        value_of_obj(obj)
    }
}

/// Ghost model of a [`DataSource`] API value.
pub ghost struct DataSourceV {
    /// Transport description
    pub api: ApiV,
    /// Pending data source model, if one is attached
    pub model: Option<DataSourceModelV>,
}

/// Data Source Structure
#[derive(Debug, PartialEq)]
pub struct DataSource {
    api: Api,
    model: Option<DataSourceModel>,
}

impl View for DataSource {
    type V = DataSourceV;

    closed spec fn view(&self) -> DataSourceV {
        DataSourceV { api: self.api@, model: self.model.deep_view() }
    }
}

/// Copies an optional data source model.
fn clone_opt_ds_model(o: &Option<DataSourceModel>) -> (r: Option<DataSourceModel>)
    ensures
        r.deep_view() == o.deep_view(),
{
    match o {
        Some(m) => Some(m.clone()),
        None => None,
    }
}

impl Clone for DataSource {
    /// Clones have the same model as the original.
    fn clone(&self) -> (r: Self)
        ensures
            r@ == self@,
    {
        DataSource { api: self.api.clone(), model: clone_opt_ds_model(&self.model) }
    }
}

impl DataSource {
    /// The view of a freshly constructed DataSource API: the transport over
    /// `host` and `token`, with no pending model.
    pub open spec fn spec_new(host: Seq<char>, token: Seq<char>) -> DataSourceV {
        DataSourceV { api: ApiV { host: host + "/api"@, token }, model: None }
    }

    /// Create new DataSource API instance
    pub fn new(host: String, token: String) -> (d: DataSource)
        ensures
            d@ == DataSource::spec_new(host@, token@),
    {
        let api = Api::new(host, token);
        DataSource { api, model: None }
    }

    /// The request path for listing data sources.
    pub open spec fn spec_get_path() -> Seq<char> {
        "datasources"@
    }

    /// Build the request path for listing data sources.
    pub fn get_path() -> (r: String)
        ensures
            r@ == DataSource::spec_get_path(),
    {
        String::from_str("datasources")
    }

    /// Decode the response body of a data source listing.
    pub fn parse_get_response(body: &str) -> (r: Result<Vec<DataSourceModel>, String>)
        ensures
            match json_of(body@) {
                Some(j) => match spec_datasource_list_of(j) {
                    Some(l) => r is Ok && r->Ok_0.deep_view() == l,
                    None => r is Err && r->Err_0@ == "Could not decode response"@,
                },
                None => r is Err,
            },
    {
        let v = match parse_value(body) {
            Ok(v) => v,
            Err(e) => {
                return Err(e);
            },
        };
        let ghost j = value_model(v);
        match value_as_array(&v) {
            None => Err(String::from_str("Could not decode response")),
            Some(items) => {
                let ghost a = j->Arr_0;
                let mut out: Vec<DataSourceModel> = Vec::new();
                let mut i: usize = 0;
                while i < items.len()
                    invariant
                        i <= items@.len(),
                        items@.len() == a.len(),
                        forall|k: int|
                            0 <= k < a.len() ==> value_model(#[trigger] items@[k]) == a[k],
                        forall|k: int| 0 <= k < i ==> spec_datasource_of(a[k]) is Some,
                        out@.len() == i,
                        forall|k: int|
                            0 <= k < i ==> #[trigger] out.deep_view()[k] == spec_datasource_of(
                                a[k],
                            )->0,
                        j is Arr,
                        a == j->Arr_0,
                        json_of(body@) == Some(j),
                    decreases items@.len() - i,
                {
                    match datasource_from_value(&items[i]) {
                        Ok(d) => {
                            let ghost prevv = out@;
                            let ghost prevdv = out.deep_view();
                            let ghost ev = d;
                            out.push(d);
                            proof {
                                assert(out@ == prevv.push(ev));
                                assert forall|k: int| 0 <= k <= i implies #[trigger] out
                                    .deep_view()[k] == spec_datasource_of(a[k])->0 by {
                                    assert(prevv.push(ev)[k] == out@[k]);
                                    if k < i {
                                        assert(prevdv[k] == spec_datasource_of(a[k])->0);
                                        assert(prevdv[k] == prevv[k].deep_view());
                                        assert(out.deep_view()[k] == prevv[k].deep_view());
                                    } else {
                                        assert(out@[k] == ev);
                                        assert(out.deep_view()[k] == ev.deep_view());
                                    }
                                }
                            }
                        },
                        Err(_) => {
                            proof {
                                assert(spec_datasource_of(a[i as int]) is None);
                                assert(!all_datasources(a));
                            }
                            return Err(String::from_str("Could not decode response"));
                        },
                    }
                    i = i + 1;
                }
                proof {
                    assert(all_datasources(a));
                    assert(out.deep_view() =~~= datasources_of(a));
                }
                Ok(out)
            },
        }
    }

    /// Attach a data source model to be created in Grafana.
    pub fn create(self, model: DataSourceModel) -> (r: Result<DataSource, String>)
        ensures
            r is Ok,
            r->Ok_0@ == (DataSourceV { model: Some(model@), ..self@ }),
    {
        Ok(DataSource { model: Some(model), ..self })
    }

    /// Send new Data Source to Grafana: a deliberate placeholder that
    /// performs no network call and reports the operation as not
    /// implemented.
    pub fn send(&self) -> (r: Result<String, String>)
        ensures
            r is Err,
            r->Err_0@ == "datasource.send() - Not implemented"@,
    {
        Err(String::from_str("datasource.send() - Not implemented"))
    }
}

} // verus!
