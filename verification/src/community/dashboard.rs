//! Dashboard Module
//!
//! Resource models for dashboards and their panels, the builders that
//! produce them, and the Dashboard API: request-path construction and
//! response decoding for fetching a dashboard by unique id.

use vstd::prelude::*;

use crate::common::api::{Api, ApiV};
use crate::common::cloning::{clone_opt_string, clone_opt_string_vec, clone_vec_exact};
use crate::common::error::{GrafanaError, GrafanaErrorV};
use crate::common::json::{
    JsonData, as_u16_opt, as_u32_opt, field_of, json_of, opt_str_arr_field, opt_str_field,
    opt_u64_field, parse_value, spec_opt_str_arr_field, spec_opt_str_field, spec_opt_u64_field,
    spec_str_field, spec_u64_field, str_field, u64_field, value_as_array, value_get,
    value_is_null, value_is_obj, value_model,
};

verus! {

/// Ghost model of a [`PanelModel`].
pub ghost struct PanelModelV {
    /// Panel title text
    pub title: Seq<char>,
    /// Panel id
    pub id: u16,
    /// Panel type text
    pub kind: Seq<char>,
}

/// Panel Model
#[derive(Debug, PartialEq)]
pub struct PanelModel {
    /// Panel title
    pub title: String,
    /// Panel id
    pub id: u16,
    /// Panel type
    pub kind: String,
}

impl View for PanelModel {
    type V = PanelModelV;

    open spec fn view(&self) -> PanelModelV {
        PanelModelV { title: self.title@, id: self.id, kind: self.kind@ }
    }
}

impl DeepView for PanelModel {
    type V = PanelModelV;

    open spec fn deep_view(&self) -> PanelModelV {
        self.view()
    }
}

impl Clone for PanelModel {
    /// Clones are equal to the original.
    fn clone(&self) -> (r: Self)
        ensures
            r == *self,
    {
        PanelModel { title: self.title.clone(), id: self.id, kind: self.kind.clone() }
    }
}

/// Ghost model of a [`DashboardModel`].
pub ghost struct DashboardModelV {
    /// Numerical id
    pub id: Option<u32>,
    /// Unique id text
    pub uid: Option<Seq<char>>,
    /// Panels
    pub panels: Option<Seq<PanelModelV>>,
    /// Title text
    pub title: Option<Seq<char>>,
    /// Tag texts
    pub tags: Option<Seq<Seq<char>>>,
    /// Timezone text
    pub timezone: Option<Seq<char>>,
    /// Schema version
    pub schema_version: Option<u16>,
    /// Refresh interval text
    pub refresh: Option<Seq<char>>,
    /// Dashboard version
    pub version: Option<u16>,
}

/// Complete Dashboard Model
#[derive(Debug, PartialEq)]
pub struct DashboardModel {
    /// Numerical id, absent on create requests
    pub id: Option<u32>,
    /// Unique Id of Dashboard, used in other queries
    pub uid: Option<String>,
    /// Vector of panels
    pub panels: Option<Vec<PanelModel>>,
    /// Title of dashboard
    pub title: Option<String>,
    /// Tags
    pub tags: Option<Vec<String>>,
    /// Timezone
    pub timezone: Option<String>,
    /// Schema Version
    pub schema_version: Option<u16>,
    /// Refresh interval
    pub refresh: Option<String>,
    /// Dashboard Version
    pub version: Option<u16>,
}

impl View for DashboardModel {
    type V = DashboardModelV;

    open spec fn view(&self) -> DashboardModelV {
        DashboardModelV {
            id: self.id,
            uid: self.uid.deep_view(),
            panels: self.panels.deep_view(),
            title: self.title.deep_view(),
            tags: self.tags.deep_view(),
            timezone: self.timezone.deep_view(),
            schema_version: self.schema_version,
            refresh: self.refresh.deep_view(),
            version: self.version,
        }
    }
}

impl DeepView for DashboardModel {
    type V = DashboardModelV;

    open spec fn deep_view(&self) -> DashboardModelV {
        self.view()
    }
}

/// Copies an optional vector of panels.
fn clone_opt_panels(o: &Option<Vec<PanelModel>>) -> (r: Option<Vec<PanelModel>>)
    ensures
        r is Some <==> *o is Some,
        r is Some ==> r->0@ == (*o)->0@,
{
    match o {
        Some(v) => Some(clone_vec_exact(v)),
        None => None,
    }
}

impl Clone for DashboardModel {
    /// Clones have the same model as the original.
    fn clone(&self) -> (r: Self)
        ensures
            r@ == self@,
    {
        let r = DashboardModel {
            id: self.id,
            uid: clone_opt_string(&self.uid),
            panels: clone_opt_panels(&self.panels),
            title: clone_opt_string(&self.title),
            tags: clone_opt_string_vec(&self.tags),
            timezone: clone_opt_string(&self.timezone),
            schema_version: self.schema_version,
            refresh: clone_opt_string(&self.refresh),
            version: self.version,
        };
        proof {
            assert(r.panels.deep_view() =~~= self.panels.deep_view());
            assert(r.tags.deep_view() =~~= self.tags.deep_view());
        }
        r
    }
}

/// Ghost model of a [`MetaModel`].
pub ghost struct MetaModelV {
    /// Folder name text
    pub folder_title: Option<Seq<char>>,
    /// Creator text
    pub created_by: Option<Seq<char>>,
    /// Last editor text
    pub updated_by: Option<Seq<char>>,
}

/// Dashboard meta-data
#[derive(Debug, PartialEq)]
pub struct MetaModel {
    /// Folder Name
    pub folder_title: Option<String>,
    /// Original creator of the dashboard
    pub created_by: Option<String>,
    /// Last updated by
    pub updated_by: Option<String>,
}

impl View for MetaModel {
    type V = MetaModelV;

    open spec fn view(&self) -> MetaModelV {
        MetaModelV {
            folder_title: self.folder_title.deep_view(),
            created_by: self.created_by.deep_view(),
            updated_by: self.updated_by.deep_view(),
        }
    }
}

/// Ghost model of a [`FullDashboardModel`].
pub ghost struct FullDashboardModelV {
    /// Meta-data
    pub meta: MetaModelV,
    /// Dashboard model
    pub dashboard: DashboardModelV,
}

/// Full Dashboard Model
#[derive(Debug, PartialEq)]
pub struct FullDashboardModel {
    /// Meta-data on dashboard
    pub meta: MetaModel,
    /// Dashboard model
    pub dashboard: DashboardModel,
}

impl View for FullDashboardModel {
    type V = FullDashboardModelV;

    open spec fn view(&self) -> FullDashboardModelV {
        FullDashboardModelV { meta: self.meta@, dashboard: self.dashboard@ }
    }
}

/// Ghost model of a [`Dashboard`] API value.
pub ghost struct DashboardV {
    /// Transport description
    pub api: ApiV,
    /// Pending dashboard model, if one is attached
    pub dashboard: Option<DashboardModelV>,
    /// Target folder id
    pub folder_id: Option<u16>,
    /// Target folder unique id text
    pub folder_uid: Option<Seq<char>>,
    /// Commit message text
    pub message: Option<Seq<char>>,
    /// Overwrite flag
    pub overwrite: bool,
}

/// Dashboard API Structure
#[derive(Debug, PartialEq)]
pub struct Dashboard {
    /// API interface
    api: Api,
    /// The complete dashboard model, id = null to create a new dashboard.
    dashboard: Option<DashboardModel>,
    folder_id: Option<u16>,
    folder_uid: Option<String>,
    message: Option<String>,
    overwrite: bool,
}

impl View for Dashboard {
    type V = DashboardV;

    closed spec fn view(&self) -> DashboardV {
        DashboardV {
            api: self.api@,
            dashboard: self.dashboard.deep_view(),
            folder_id: self.folder_id,
            folder_uid: self.folder_uid.deep_view(),
            message: self.message.deep_view(),
            overwrite: self.overwrite,
        }
    }
}

/// Copies an optional dashboard model.
fn clone_opt_model(o: &Option<DashboardModel>) -> (r: Option<DashboardModel>)
    ensures
        r.deep_view() == o.deep_view(),
{
    match o {
        Some(m) => Some(m.clone()),
        None => None,
    }
}

impl Clone for Dashboard {
    /// Clones have the same model as the original.
    fn clone(&self) -> (r: Self)
        ensures
            r@ == self@,
    {
        Dashboard {
            api: self.api.clone(),
            dashboard: clone_opt_model(&self.dashboard),
            folder_id: self.folder_id,
            folder_uid: clone_opt_string(&self.folder_uid),
            message: clone_opt_string(&self.message),
            overwrite: self.overwrite,
        }
    }
}

impl Dashboard {
    /// The view of a freshly constructed Dashboard API over `api`.
    pub open spec fn spec_new(api: ApiV) -> DashboardV {
        DashboardV {
            api,
            dashboard: None,
            folder_id: None,
            folder_uid: None,
            message: None,
            overwrite: false,
        }
    }

    /// Create a new instance of Dashboard API
    pub fn new(api: Api) -> (d: Dashboard)
        ensures
            d@ == Dashboard::spec_new(api@),
    {
        Dashboard {
            api,
            dashboard: None,
            folder_id: None,
            folder_uid: None,
            message: None,
            overwrite: false,
        }
    }

    /// Attach a dashboard model to be created in Grafana
    pub fn create(self, dashboard: DashboardModel) -> (d: Dashboard)
        ensures
            d@ == (DashboardV { dashboard: Some(dashboard@), ..self@ }),
    {
        Dashboard { dashboard: Some(dashboard), ..self }
    }

    /// Add commit message
    pub fn with_message(self, message: String) -> (d: Dashboard)
        ensures
            d@ == (DashboardV { message: Some(message@), ..self@ }),
    {
        Dashboard { message: Some(message), ..self }
    }

    /// Set folder Id
    pub fn with_folder_id(self, id: u16) -> (d: Dashboard)
        ensures
            d@ == (DashboardV { folder_id: Some(id), ..self@ }),
    {
        Dashboard { folder_id: Some(id), ..self }
    }

    /// Set folder UID
    pub fn with_folder_uid(self, uid: String) -> (d: Dashboard)
        ensures
            d@ == (DashboardV { folder_uid: Some(uid@), ..self@ }),
    {
        Dashboard { folder_uid: Some(uid), ..self }
    }

    /// Set overwrite flag
    pub fn with_overwrite(self, overwrite: bool) -> (d: Dashboard)
        ensures
            d@ == (DashboardV { overwrite, ..self@ }),
    {
        Dashboard { overwrite, ..self }
    }

    /// Send Dashboard to Grafana: a deliberate placeholder that performs no
    /// network call and reports the operation as not implemented.
    pub fn send(self) -> (r: Result<Dashboard, GrafanaError>)
        ensures
            r is Err,
            r->Err_0@ == (GrafanaErrorV { message: "Not implemented"@, status: "ERROR"@ }),
    {
        Err(GrafanaError::new(String::from_str("Not implemented"), String::from_str("ERROR")))
    }

    /// A dashboard model is fit for a create request only while it carries
    /// no server-assigned id.
    pub fn validate_for_create(dashboard: Dashboard) -> (r: Result<(), String>)
        ensures
            r is Ok <==> !(dashboard@.dashboard matches Some(m) && m.id is Some),
            r is Err ==> r->Err_0@ == "Cannot specifiy id on create"@,
    {
        match &dashboard.dashboard {
            Some(model) => match &model.id {
                Some(_) => Err(String::from_str("Cannot specifiy id on create")),
                None => Ok(()),
            },
            None => Ok(()),
        }
    }

    /// The request path for fetching a dashboard by unique id.
    pub open spec fn spec_get_path(uid: Seq<char>) -> Seq<char> {
        "dashboards/uid/"@ + uid
    }

    /// Build the request path for fetching the dashboard with unique id
    /// `uid`.
    pub fn get_path(uid: &str) -> (r: String)
        ensures
            r@ == Dashboard::spec_get_path(uid@),
    {
        let mut r = String::from_str("dashboards/uid/");
        r.append(uid);
        r
    }
}

/// Builder for Panels
pub struct PanelBuilder {
    title: String,
    kind: String,
}

/// Ghost model of a [`PanelBuilder`].
pub ghost struct PanelBuilderV {
    /// Panel title text
    pub title: Seq<char>,
    /// Panel type text
    pub kind: Seq<char>,
}

impl View for PanelBuilder {
    type V = PanelBuilderV;

    closed spec fn view(&self) -> PanelBuilderV {
        PanelBuilderV { title: self.title@, kind: self.kind@ }
    }
}

impl PanelBuilder {
    /// Create a new PanelBuilder object
    pub fn new(title: String) -> (b: PanelBuilder)
        ensures
            b@ == (PanelBuilderV { title: title@, kind: Seq::<char>::empty() }),
    {
        PanelBuilder { title, kind: String::new() }
    }

    /// Set type of panel
    pub fn with_type(self, kind: String) -> (b: PanelBuilder)
        ensures
            b@ == (PanelBuilderV { kind: kind@, ..self@ }),
    {
        PanelBuilder { kind, ..self }
    }

    /// Build a Panel
    pub fn build(self) -> (p: PanelModel)
        ensures
            p@ == (PanelModelV { title: self@.title, id: 0, kind: self@.kind }),
    {
        PanelModel { title: self.title, id: 0, kind: self.kind }
    }
}

/// Ghost model of a [`DashboardBuilder`].
pub ghost struct DashboardBuilderV {
    /// Numerical id
    pub id: Option<u32>,
    /// Unique id text
    pub uid: Option<Seq<char>>,
    /// Panels
    pub panels: Option<Seq<PanelModelV>>,
    /// Title text
    pub title: Seq<char>,
    /// Tag texts
    pub tags: Option<Seq<Seq<char>>>,
    /// Timezone text
    pub timezone: Option<Seq<char>>,
    /// Schema version
    pub schema_version: u16,
    /// Dashboard version
    pub version: u16,
    /// Refresh interval text
    pub refresh: Option<Seq<char>>,
    /// Target folder id
    pub folder_id: Option<u16>,
    /// Target folder unique id text
    pub folder_uid: Option<Seq<char>>,
    /// Commit message text
    pub message: Option<Seq<char>>,
    /// Overwrite flag
    pub overwrite: bool,
}

/// Builder for Dashboard
#[derive(Debug, PartialEq)]
pub struct DashboardBuilder {
    id: Option<u32>,
    uid: Option<String>,
    panels: Option<Vec<PanelModel>>,
    title: String,
    tags: Option<Vec<String>>,
    timezone: Option<String>,
    schema_version: u16,
    version: u16,
    refresh: Option<String>,
    folder_id: Option<u16>,
    folder_uid: Option<String>,
    message: Option<String>,
    overwrite: bool,
}

impl View for DashboardBuilder {
    type V = DashboardBuilderV;

    closed spec fn view(&self) -> DashboardBuilderV {
        DashboardBuilderV {
            id: self.id,
            uid: self.uid.deep_view(),
            panels: self.panels.deep_view(),
            title: self.title@,
            tags: self.tags.deep_view(),
            timezone: self.timezone.deep_view(),
            schema_version: self.schema_version,
            version: self.version,
            refresh: self.refresh.deep_view(),
            folder_id: self.folder_id,
            folder_uid: self.folder_uid.deep_view(),
            message: self.message.deep_view(),
            overwrite: self.overwrite,
        }
    }
}

impl DashboardBuilder {
    /// The view of a fresh builder: only the title is set, every optional
    /// field is absent, both version numbers are zero, and overwrite is on.
    pub open spec fn spec_new(title: Seq<char>) -> DashboardBuilderV {
        DashboardBuilderV {
            id: None,
            uid: None,
            panels: None,
            title,
            tags: None,
            timezone: None,
            schema_version: 0,
            version: 0,
            refresh: None,
            folder_id: None,
            folder_uid: None,
            message: None,
            overwrite: true,
        }
    }

    /// Create new builder instance
    pub fn new(title: String) -> (b: DashboardBuilder)
        ensures
            b@ == DashboardBuilder::spec_new(title@),
    {
        DashboardBuilder {
            id: None,
            uid: None,
            panels: None,
            title,
            tags: None,
            timezone: None,
            schema_version: 0,
            version: 0,
            refresh: None,
            folder_id: None,
            folder_uid: None,
            message: None,
            overwrite: true,
        }
    }

    /// Set title of Dashboard
    pub fn title(self, title: String) -> (b: DashboardBuilder)
        ensures
            b@ == (DashboardBuilderV { title: title@, ..self@ }),
    {
        DashboardBuilder { title, ..self }
    }

    /// Set the Schema Version of this dashboard
    pub fn schema_version(self, version: u16) -> (b: DashboardBuilder)
        ensures
            b@ == (DashboardBuilderV { schema_version: version, ..self@ }),
    {
        DashboardBuilder { schema_version: version, ..self }
    }

    /// Add panel models
    pub fn with_panels(self, panels: Vec<PanelModel>) -> (b: DashboardBuilder)
        ensures
            b@ == (DashboardBuilderV { panels: Some(panels.deep_view()), ..self@ }),
    {
        DashboardBuilder { panels: Some(panels), ..self }
    }

    /// Add panel models
    pub fn panels(self, panels: Vec<PanelModel>) -> (b: DashboardBuilder)
        ensures
            b@ == (DashboardBuilderV { panels: Some(panels.deep_view()), ..self@ }),
    {
        DashboardBuilder { panels: Some(panels), ..self }
    }

    /// The model a builder produces: each field holds the last value set on
    /// the builder, wrapped where the model field is optional.
    pub open spec fn spec_build(b: DashboardBuilderV) -> DashboardModelV {
        DashboardModelV {
            id: b.id,
            uid: b.uid,
            panels: b.panels,
            title: Some(b.title),
            tags: b.tags,
            timezone: b.timezone,
            schema_version: Some(b.schema_version),
            refresh: b.refresh,
            version: Some(b.version),
        }
    }

    /// Build the Dashboard
    pub fn build(self) -> (m: DashboardModel)
        ensures
            m@ == DashboardBuilder::spec_build(self@),
    {
        DashboardModel {
            id: self.id,
            uid: self.uid,
            panels: self.panels,
            title: Some(self.title),
            tags: self.tags,
            timezone: self.timezone,
            schema_version: Some(self.schema_version),
            refresh: self.refresh,
            version: Some(self.version),
        }
    }
}

/// Decoding of a panel from a JSON document: an object with required
/// `title`, `id` and `type` members.
pub open spec fn spec_panel_of(j: JsonData) -> Option<PanelModelV> {
    match j {
        JsonData::Obj(m) => match (
            spec_str_field(m, "title"@),
            spec_u64_field(m, "id"@, u16::MAX as u64),
            spec_str_field(m, "type"@),
        ) {
            (Some(t), Some(i), Some(k)) => Some(PanelModelV { title: t, id: i as u16, kind: k }),
            _ => None,
        },
        _ => None,
    }
}

/// Whether every element of `a` decodes as a panel.
pub open spec fn all_panels(a: Seq<JsonData>) -> bool {
    forall|i: int| 0 <= i < a.len() ==> spec_panel_of(a[i]) is Some
}

/// The panels of a sequence of panel documents.
pub open spec fn panels_of(a: Seq<JsonData>) -> Seq<PanelModelV> {
    a.map_values(|j: JsonData| spec_panel_of(j)->0)
}

/// An optional member holding an array of panels.
pub open spec fn spec_opt_panels_field(m: Map<Seq<char>, JsonData>, key: Seq<char>) -> Option<
    Option<Seq<PanelModelV>>,
> {
    match field_of(m, key) {
        None => Some(None),
        Some(JsonData::Null) => Some(None),
        Some(JsonData::Arr(a)) => if all_panels(a) {
            Some(Some(panels_of(a)))
        } else {
            None
        },
        Some(_) => None,
    }
}

/// Decoding of a dashboard model from a JSON document: an object whose
/// members are all optional, under their camel-case wire names.
pub open spec fn spec_dashboard_model_of(j: JsonData) -> Option<DashboardModelV> {
    match j {
        JsonData::Obj(m) => match (
            spec_opt_u64_field(m, "id"@, u32::MAX as u64),
            spec_opt_str_field(m, "uid"@),
            spec_opt_panels_field(m, "panels"@),
            spec_opt_str_field(m, "title"@),
            spec_opt_str_arr_field(m, "tags"@),
            spec_opt_str_field(m, "timezone"@),
            spec_opt_u64_field(m, "schemaVersion"@, u16::MAX as u64),
            spec_opt_str_field(m, "refresh"@),
            spec_opt_u64_field(m, "version"@, u16::MAX as u64),
        ) {
            (
                Some(id),
                Some(uid),
                Some(panels),
                Some(title),
                Some(tags),
                Some(tz),
                Some(sv),
                Some(refresh),
                Some(ver),
            ) => Some(
                DashboardModelV {
                    id: as_u32_opt(id),
                    uid,
                    panels,
                    title,
                    tags,
                    timezone: tz,
                    schema_version: as_u16_opt(sv),
                    refresh,
                    version: as_u16_opt(ver),
                },
            ),
            _ => None,
        },
        _ => None,
    }
}

/// Decoding of dashboard meta-data from a JSON document.
pub open spec fn spec_meta_of(j: JsonData) -> Option<MetaModelV> {
    match j {
        JsonData::Obj(m) => match (
            spec_opt_str_field(m, "folderTitle"@),
            spec_opt_str_field(m, "createdBy"@),
            spec_opt_str_field(m, "updatedBy"@),
        ) {
            (Some(f), Some(c), Some(u)) => Some(
                MetaModelV { folder_title: f, created_by: c, updated_by: u },
            ),
            _ => None,
        },
        _ => None,
    }
}

/// Decoding of a full dashboard from a JSON document: an object with
/// required `meta` and `dashboard` members.
pub open spec fn spec_full_dashboard_of(j: JsonData) -> Option<FullDashboardModelV> {
    match j {
        JsonData::Obj(m) => match (field_of(m, "meta"@), field_of(m, "dashboard"@)) {
            (Some(jm), Some(jd)) => match (spec_meta_of(jm), spec_dashboard_model_of(jd)) {
                (Some(meta), Some(dashboard)) => Some(FullDashboardModelV { meta, dashboard }),
                _ => None,
            },
            _ => None,
        },
        _ => None,
    }
}

/// Whether every element of `a` decodes as a dashboard model.
pub open spec fn all_dashboards(a: Seq<JsonData>) -> bool {
    forall|i: int| 0 <= i < a.len() ==> spec_dashboard_model_of(a[i]) is Some
}

/// The models of a sequence of dashboard documents.
pub open spec fn dashboards_of(a: Seq<JsonData>) -> Seq<DashboardModelV> {
    a.map_values(|j: JsonData| spec_dashboard_model_of(j)->0)
}

/// Decoding of a dashboard list from a JSON document: an array of
/// dashboard models.
pub open spec fn spec_dashboard_list_of(j: JsonData) -> Option<Seq<DashboardModelV>> {
    match j {
        JsonData::Arr(a) => if all_dashboards(a) {
            Some(dashboards_of(a))
        } else {
            None
        },
        _ => None,
    }
}

/// Decodes a panel from a JSON value.
pub fn panel_from_value(v: &serde_json::Value) -> (r: Result<PanelModel, ()>)
    ensures
        match spec_panel_of(value_model(*v)) {
            Some(p) => r is Ok && r->Ok_0@ == p,
            None => r is Err,
        },
{
    if !value_is_obj(v) {
        return Err(());
    }
    let title = match str_field(v, "title") {
        Ok(t) => t,
        Err(_) => {
            return Err(());
        },
    };
    let id = match u64_field(v, "id", u16::MAX as u64) {
        Ok(n) => n,
        Err(_) => {
            return Err(());
        },
    };
    let kind = match str_field(v, "type") {
        Ok(k) => k,
        Err(_) => {
            return Err(());
        },
    };
    Ok(PanelModel { title, id: id as u16, kind })
}

/// Decodes an optional member of the object `v` holds as an array of
/// panels.
fn opt_panels_field(v: &serde_json::Value, key: &str) -> (r: Result<Option<Vec<PanelModel>>, ()>)
    requires
        value_model(*v) is Obj,
    ensures
        match spec_opt_panels_field(value_model(*v)->Obj_0, key@) {
            Some(o) => r is Ok && r->Ok_0.deep_view() == o,
            None => r is Err,
        },
{
    match value_get(v, key) {
        None => Ok(None),
        Some(f) => {
            if value_is_null(f) {
                return Ok(None);
            }
            let ghost j = value_model(*f);
            match value_as_array(f) {
                None => Err(()),
                Some(items) => {
                    let ghost a = j->Arr_0;
                    let mut out: Vec<PanelModel> = Vec::new();
                    let mut i: usize = 0;
                    while i < items.len()
                        invariant
                            i <= items@.len(),
                            items@.len() == a.len(),
                            forall|k: int|
                                0 <= k < a.len() ==> value_model(#[trigger] items@[k]) == a[k],
                            forall|k: int| 0 <= k < i ==> spec_panel_of(a[k]) is Some,
                            out@.len() == i,
                            forall|k: int|
                                0 <= k < i ==> #[trigger] out.deep_view()[k] == spec_panel_of(
                                    a[k],
                                )->0,
                            value_model(*v) is Obj,
                            value_model(*v)->Obj_0.contains_key(key@),
                            value_model(*v)->Obj_0[key@] == j,
                            j is Arr,
                            a == j->Arr_0,
                        decreases items@.len() - i,
                    {
                        match panel_from_value(&items[i]) {
                            Ok(p) => {
                                let ghost prevv = out@;
                                let ghost prevdv = out.deep_view();
                                let ghost ev = p;
                                out.push(p);
                                proof {
                                    assert(out@ == prevv.push(ev));
                                    assert forall|k: int| 0 <= k <= i implies #[trigger] out
                                        .deep_view()[k] == spec_panel_of(a[k])->0 by {
                                        assert(prevv.push(ev)[k] == out@[k]);
                                        if k < i {
                                            assert(prevdv[k] == spec_panel_of(a[k])->0);
                                            assert(prevdv[k] == prevv[k].deep_view());
                                            assert(out.deep_view()[k] == prevv[k].deep_view());
                                        } else {
                                            assert(out@[k] == ev);
                                            assert(out.deep_view()[k] == ev.deep_view());
                                        }
                                    }
                                }
                            },
                            Err(_) => {
                                proof {
                                    assert(spec_panel_of(a[i as int]) is None);
                                    assert(!all_panels(a));
                                }
                                return Err(());
                            },
                        }
                        i = i + 1;
                    }
                    proof {
                        assert(all_panels(a));
                        assert(out.deep_view() =~~= panels_of(a));
                    }
                    Ok(Some(out))
                },
            }
        },
    }
}

/// Decodes a dashboard model from a JSON value.
pub fn dashboard_model_from_value(v: &serde_json::Value) -> (r: Result<DashboardModel, ()>)
    ensures
        match spec_dashboard_model_of(value_model(*v)) {
            Some(d) => r is Ok && r->Ok_0@ == d,
            None => r is Err,
        },
{
    if !value_is_obj(v) {
        return Err(());
    }
    let id = match opt_u64_field(v, "id", u32::MAX as u64) {
        Ok(o) => o,
        Err(_) => {
            return Err(());
        },
    };
    let uid = match opt_str_field(v, "uid") {
        Ok(o) => o,
        Err(_) => {
            return Err(());
        },
    };
    let panels = match opt_panels_field(v, "panels") {
        Ok(o) => o,
        Err(_) => {
            return Err(());
        },
    };
    let title = match opt_str_field(v, "title") {
        Ok(o) => o,
        Err(_) => {
            return Err(());
        },
    };
    let tags = match opt_str_arr_field(v, "tags") {
        Ok(o) => o,
        Err(_) => {
            return Err(());
        },
    };
    let timezone = match opt_str_field(v, "timezone") {
        Ok(o) => o,
        Err(_) => {
            return Err(());
        },
    };
    let schema_version = match opt_u64_field(v, "schemaVersion", u16::MAX as u64) {
        Ok(o) => o,
        Err(_) => {
            return Err(());
        },
    };
    let refresh = match opt_str_field(v, "refresh") {
        Ok(o) => o,
        Err(_) => {
            return Err(());
        },
    };
    let version = match opt_u64_field(v, "version", u16::MAX as u64) {
        Ok(o) => o,
        Err(_) => {
            return Err(());
        },
    };
    Ok(
        DashboardModel {
            id: match id {
                Some(n) => Some(n as u32),
                None => None,
            },
            uid,
            panels,
            title,
            tags,
            timezone,
            schema_version: match schema_version {
                Some(n) => Some(n as u16),
                None => None,
            },
            refresh,
            version: match version {
                Some(n) => Some(n as u16),
                None => None,
            },
        },
    )
}

/// Decodes dashboard meta-data from a JSON value.
pub fn meta_from_value(v: &serde_json::Value) -> (r: Result<MetaModel, ()>)
    ensures
        match spec_meta_of(value_model(*v)) {
            Some(m) => r is Ok && r->Ok_0@ == m,
            None => r is Err,
        },
{
    if !value_is_obj(v) {
        return Err(());
    }
    let folder_title = match opt_str_field(v, "folderTitle") {
        Ok(o) => o,
        Err(_) => {
            return Err(());
        },
    };
    let created_by = match opt_str_field(v, "createdBy") {
        Ok(o) => o,
        Err(_) => {
            return Err(());
        },
    };
    let updated_by = match opt_str_field(v, "updatedBy") {
        Ok(o) => o,
        Err(_) => {
            return Err(());
        },
    };
    Ok(MetaModel { folder_title, created_by, updated_by })
}

/// Decodes a full dashboard from a JSON value.
pub fn full_dashboard_from_value(v: &serde_json::Value) -> (r: Result<FullDashboardModel, ()>)
    ensures
        match spec_full_dashboard_of(value_model(*v)) {
            Some(f) => r is Ok && r->Ok_0@ == f,
            None => r is Err,
        },
{
    if !value_is_obj(v) {
        return Err(());
    }
    let meta = match value_get(v, "meta") {
        Some(jm) => match meta_from_value(jm) {
            Ok(m) => m,
            Err(_) => {
                return Err(());
            },
        },
        None => {
            return Err(());
        },
    };
    let dashboard = match value_get(v, "dashboard") {
        Some(jd) => match dashboard_model_from_value(jd) {
            Ok(d) => d,
            Err(_) => {
                return Err(());
            },
        },
        None => {
            return Err(());
        },
    };
    Ok(FullDashboardModel { meta, dashboard })
}

/// Decodes a list of dashboard models from a JSON value.
pub fn dashboard_list_from_value(v: &serde_json::Value) -> (r: Result<Vec<DashboardModel>, ()>)
    ensures
        match spec_dashboard_list_of(value_model(*v)) {
            Some(l) => r is Ok && r->Ok_0.deep_view() == l,
            None => r is Err,
        },
{
    let ghost j = value_model(*v);
    match value_as_array(v) {
        None => Err(()),
        Some(items) => {
            let ghost a = j->Arr_0;
            let mut out: Vec<DashboardModel> = Vec::new();
            let mut i: usize = 0;
            while i < items.len()
                invariant
                    i <= items@.len(),
                    items@.len() == a.len(),
                    forall|k: int| 0 <= k < a.len() ==> value_model(#[trigger] items@[k]) == a[k],
                    forall|k: int| 0 <= k < i ==> spec_dashboard_model_of(a[k]) is Some,
                    out@.len() == i,
                    forall|k: int|
                        0 <= k < i ==> #[trigger] out.deep_view()[k] == spec_dashboard_model_of(
                            a[k],
                        )->0,
                    j is Arr,
                    a == j->Arr_0,
                    value_model(*v) == j,
                decreases items@.len() - i,
            {
                match dashboard_model_from_value(&items[i]) {
                    Ok(d) => {
                        let ghost prevv = out@;
                        let ghost prevdv = out.deep_view();
                        let ghost ev = d;
                        out.push(d);
                        proof {
                            assert(out@ == prevv.push(ev));
                            assert forall|k: int| 0 <= k <= i implies #[trigger] out.deep_view()[k]
                                == spec_dashboard_model_of(a[k])->0 by {
                                assert(prevv.push(ev)[k] == out@[k]);
                                if k < i {
                                    assert(prevdv[k] == spec_dashboard_model_of(a[k])->0);
                                    assert(prevdv[k] == prevv[k].deep_view());
                                    assert(out.deep_view()[k] == prevv[k].deep_view());
                                } else {
                                    assert(out@[k] == ev);
                                    assert(out.deep_view()[k] == ev.deep_view());
                                }
                            }
                        }
                    },
                    Err(_) => {
                        proof {
                            assert(spec_dashboard_model_of(a[i as int]) is None);
                            assert(!all_dashboards(a));
                        }
                        return Err(());
                    },
                }
                i = i + 1;
            }
            proof {
                assert(all_dashboards(a));
                assert(out.deep_view() =~~= dashboards_of(a));
            }
            Ok(out)
        },
    }
}

/// The built dashboard model's fields equal the last value set on the
/// builder, and the fields a fresh builder leaves unset hold their
/// defaults: no id, no uid, no panels, no tags, no timezone, no refresh,
/// schema version and version zero.
pub proof fn lemma_builder_fields(
    title: Seq<char>,
    b: DashboardBuilderV,
    t: Seq<char>,
    sv: u16,
    panels: Seq<PanelModelV>,
)
    ensures
        DashboardBuilder::spec_build(DashboardBuilder::spec_new(title)) == (DashboardModelV {
            id: None,
            uid: None,
            panels: None,
            title: Some(title),
            tags: None,
            timezone: None,
            schema_version: Some(0),
            refresh: None,
            version: Some(0),
        }),
        DashboardBuilder::spec_build(DashboardBuilderV { title: t, ..b }).title == Some(t),
        DashboardBuilder::spec_build(
            DashboardBuilderV { schema_version: sv, ..b },
        ).schema_version == Some(sv),
        DashboardBuilder::spec_build(DashboardBuilderV { panels: Some(panels), ..b }).panels
            == Some(panels),
{
}

impl Dashboard {
    /// Decode the response body of a dashboard fetch.  A body that is not
    /// valid JSON, or whose document does not hold a full dashboard, is
    /// reported as an error rather than a panic.
    pub fn parse_get_response(body: &str) -> (r: Result<FullDashboardModel, GrafanaError>)
        ensures
            match json_of(body@) {
                Some(j) => match spec_full_dashboard_of(j) {
                    Some(f) => r is Ok && r->Ok_0@ == f,
                    None => r is Err && r->Err_0@ == (GrafanaErrorV {
                        message: "Could not parse JSON"@,
                        status: "ERROR"@,
                    }),
                },
                None => r is Err && r->Err_0@ == (GrafanaErrorV {
                    message: "Could not parse JSON"@,
                    status: "ERROR"@,
                }),
            },
    {
        match parse_value(body) {
            Ok(v) => match full_dashboard_from_value(&v) {
                Ok(f) => Ok(f),
                Err(_) => Err(
                    GrafanaError::new(
                        String::from_str("Could not parse JSON"),
                        String::from_str("ERROR"),
                    ),
                ),
            },
            Err(_) => Err(
                GrafanaError::new(
                    String::from_str("Could not parse JSON"),
                    String::from_str("ERROR"),
                ),
            ),
        }
    }
}

} // verus!
