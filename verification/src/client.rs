//! Grafana Client
//!
//! The [`Client`] facade owns the transport description and configuration
//! and hands out the per-resource APIs.  Each resource API is constructed
//! lazily, the first time its accessor runs, and cached in the client for
//! the rest of its lifetime: an accessor invoked again returns the cached
//! instance rather than constructing a new one.

use vstd::prelude::*;

use crate::common::api::{Api, ApiV};
use crate::common::config::{Config, ConfigV, env_lookup};
use crate::community::alerting_provisioning::{AlertingProvisioning, AlertingProvisioningV};
use crate::community::annotations::{Annotations, AnnotationsV};
use crate::community::authentication::Authentication;
use crate::community::dashboard::{Dashboard, DashboardV};
use crate::community::data_source::{DataSource, DataSourceV};
use crate::community::folder::{Folder, FolderV};
use crate::community::organization::{Organization, OrganizationV};
use crate::community::search::{Search, SearchV};
use crate::common::error::GrafanaError;

verus! {

/// Ghost model of a [`Client`]: the transport, the configuration, and one
/// slot per resource API kind, each empty until its accessor first runs.
pub ghost struct ClientV {
    /// Transport description
    pub api: ApiV,
    /// Configuration
    pub config: ConfigV,
    /// Annotations API slot
    pub annotations: Option<AnnotationsV>,
    /// Alerting provisioning API slot
    pub alerting_provisioning: Option<AlertingProvisioningV>,
    /// Folder API slot
    pub folder: Option<FolderV>,
    /// Dashboard API slot
    pub dashboard: Option<DashboardV>,
    /// Search API slot
    pub search: Option<SearchV>,
    /// Data source API slot
    pub data_source: Option<DataSourceV>,
    /// Organization API slot
    pub organization: Option<OrganizationV>,
}

/// The token a client resolves at construction: the `GRAFANA_TOKEN` entry
/// of the environment snapshot, or the placeholder when the snapshot has
/// none.
pub open spec fn spec_resolved_token(env: Seq<(Seq<char>, Seq<char>)>) -> Seq<char> {
    match env_lookup(env, "GRAFANA_TOKEN"@) {
        Some(t) => t,
        None => "DUMMYTOKEN"@,
    }
}

/// Client Structure
pub struct Client {
    /// API Instance
    pub api: Api,
    /// Common configuration information
    pub config: Config,
    /// Authentication API
    pub authentication: Authentication,
    /// Annotations API
    annotations: Option<Annotations>,
    /// Alert Provisioning API
    alerting_provisioning: Option<AlertingProvisioning>,
    /// Folder API
    folder: Option<Folder>,
    /// Dashboard API
    dashboard: Option<Dashboard>,
    /// Search API
    search: Option<Search>,
    /// Data Source API
    data_source: Option<DataSource>,
    /// Organization API
    organization: Option<Organization>,
}

/// The view of an optional resource API value.
pub open spec fn opt_view<T: View>(o: Option<T>) -> Option<T::V> {
    match o {
        Some(x) => Some(x@),
        None => None,
    }
}

impl View for Client {
    type V = ClientV;

    closed spec fn view(&self) -> ClientV {
        ClientV {
            api: self.api@,
            config: self.config@,
            annotations: opt_view(self.annotations),
            alerting_provisioning: opt_view(self.alerting_provisioning),
            folder: opt_view(self.folder),
            dashboard: opt_view(self.dashboard),
            search: opt_view(self.search),
            data_source: opt_view(self.data_source),
            organization: opt_view(self.organization),
        }
    }
}

impl Client {
    /// Whether the client is fit for use: its configuration carries a
    /// token, as every client built by [`Client::new`] does.
    pub open spec fn wf(&self) -> bool {
        self@.config.token is Some
    }

    /// The view of a freshly constructed client over `url` and an
    /// environment snapshot.
    pub open spec fn spec_new(url: Seq<char>, env: Seq<(Seq<char>, Seq<char>)>) -> ClientV {
        ClientV {
            api: ApiV { host: url + "/api"@, token: spec_resolved_token(env) },
            config: ConfigV { host: url, token: Some(spec_resolved_token(env)), env },
            annotations: None,
            alerting_provisioning: None,
            folder: None,
            dashboard: None,
            search: None,
            data_source: None,
            organization: None,
        }
    }

    /// Create a new client instance.  The token is resolved from the
    /// environment snapshot, with a placeholder when the snapshot has no
    /// `GRAFANA_TOKEN` entry.
    pub fn new(url: String, env: Vec<(String, String)>) -> (c: Client)
        ensures
            c@ == Client::spec_new(url@, env.deep_view()),
            c.wf(),
    {
        let config = Config::new(url.clone()).with_env(env);
        let token = match config.get_env("GRAFANA_TOKEN") {
            Some(t) => t,
            None => String::from_str("DUMMYTOKEN"),
        };
        let config = config.with_token(token.clone());
        let api = Api::new(url, token);
        Client {
            api,
            config,
            authentication: Authentication {},
            annotations: None,
            alerting_provisioning: None,
            folder: None,
            dashboard: None,
            search: None,
            data_source: None,
            organization: None,
        }
    }

    /// Connect to Grafana
    pub fn connect() -> (r: Result<(), GrafanaError>)
        ensures
            r is Ok,
    {
        Ok(())
    }

    /// The Annotations API an accessor call returns: the cached instance,
    /// or a fresh one over the client's transport.
    pub open spec fn spec_annotations_result(c: ClientV) -> AnnotationsV {
        match c.annotations {
            Some(a) => a,
            None => Annotations::spec_new(c.api),
        }
    }

    /// The client an annotations accessor call leaves behind.
    pub open spec fn spec_after_annotations(c: ClientV) -> ClientV {
        ClientV { annotations: Some(Client::spec_annotations_result(c)), ..c }
    }

    /// Access instance of Annotations API
    pub fn annotations(&mut self) -> (a: Annotations)
        ensures
            a@ == Client::spec_annotations_result(old(self)@),
            final(self)@ == Client::spec_after_annotations(old(self)@),
    {
        match &self.annotations {
            Some(a) => a.clone(),
            None => {
                let a = Annotations::new(self.api.clone());
                self.annotations = Some(a.clone());
                a
            },
        }
    }

    /// The AlertingProvisioning API an accessor call returns.
    pub open spec fn spec_alerting_provisioning_result(c: ClientV) -> AlertingProvisioningV {
        match c.alerting_provisioning {
            Some(a) => a,
            None => AlertingProvisioning::spec_new(c.api),
        }
    }

    /// The client an alerting provisioning accessor call leaves behind.
    pub open spec fn spec_after_alerting_provisioning(c: ClientV) -> ClientV {
        ClientV {
            alerting_provisioning: Some(Client::spec_alerting_provisioning_result(c)),
            ..c
        }
    }

    /// Create new instance of Alert Provisioning API
    pub fn alerting_provisioning(&mut self) -> (a: AlertingProvisioning)
        ensures
            a@ == Client::spec_alerting_provisioning_result(old(self)@),
            final(self)@ == Client::spec_after_alerting_provisioning(old(self)@),
    {
        match &self.alerting_provisioning {
            Some(a) => a.clone(),
            None => {
                let a = AlertingProvisioning::new(self.api.clone());
                self.alerting_provisioning = Some(a.clone());
                a
            },
        }
    }

    /// The Dashboard API an accessor call returns.
    pub open spec fn spec_dashboard_result(c: ClientV) -> DashboardV {
        match c.dashboard {
            Some(d) => d,
            None => Dashboard::spec_new(c.api),
        }
    }

    /// The client a dashboard accessor call leaves behind.
    pub open spec fn spec_after_dashboard(c: ClientV) -> ClientV {
        ClientV { dashboard: Some(Client::spec_dashboard_result(c)), ..c }
    }

    /// Return an instance of Dashboard API
    pub fn dashboard(&mut self) -> (d: Dashboard)
        ensures
            d@ == Client::spec_dashboard_result(old(self)@),
            final(self)@ == Client::spec_after_dashboard(old(self)@),
    {
        match &self.dashboard {
            Some(d) => d.clone(),
            None => {
                let d = Dashboard::new(self.api.clone());
                self.dashboard = Some(d.clone());
                d
            },
        }
    }

    /// The DataSource API an accessor call returns: the cached instance, or
    /// a fresh one over the configured host and token.
    pub open spec fn spec_data_source_result(c: ClientV) -> DataSourceV {
        match c.data_source {
            Some(d) => d,
            None => DataSource::spec_new(c.config.host, c.config.token->0),
        }
    }

    /// The client a data source accessor call leaves behind.
    pub open spec fn spec_after_data_source(c: ClientV) -> ClientV {
        ClientV { data_source: Some(Client::spec_data_source_result(c)), ..c }
    }

    /// Access instance of DataSource API
    pub fn data_source(&mut self) -> (d: DataSource)
        requires
            old(self).wf(),
        ensures
            d@ == Client::spec_data_source_result(old(self)@),
            final(self)@ == Client::spec_after_data_source(old(self)@),
            final(self).wf(),
    {
        match &self.data_source {
            Some(d) => d.clone(),
            None => {
                proof {
                    reveal_strlit("GRAFANA_HOST");
                    reveal_strlit("GRAFANA_TOKEN");
                    assert("GRAFANA_HOST"@[8] == 'H' && "GRAFANA_TOKEN"@[8] == 'T');
                    assert("GRAFANA_HOST"@ != "GRAFANA_TOKEN"@);
                }
                let host = match self.config.get("GRAFANA_HOST") {
                    Some(h) => h,
                    None => unreached(),
                };
                let token = match self.config.get("GRAFANA_TOKEN") {
                    Some(t) => t,
                    None => unreached(),
                };
                let d = DataSource::new(host, token);
                self.data_source = Some(d.clone());
                d
            },
        }
    }

    /// The Folder API an accessor call returns.
    pub open spec fn spec_folder_result(c: ClientV) -> FolderV {
        match c.folder {
            Some(f) => f,
            None => FolderV { model: None },
        }
    }

    /// The client a folder accessor call leaves behind.
    pub open spec fn spec_after_folder(c: ClientV) -> ClientV {
        ClientV { folder: Some(Client::spec_folder_result(c)), ..c }
    }

    /// Create new instance of Folder API
    pub fn folder(&mut self) -> (f: Folder)
        ensures
            f@ == Client::spec_folder_result(old(self)@),
            final(self)@ == Client::spec_after_folder(old(self)@),
    {
        match &self.folder {
            Some(f) => f.clone(),
            None => {
                let f = Folder::new();
                self.folder = Some(f.clone());
                f
            },
        }
    }

    /// The Organization API an accessor call returns.
    pub open spec fn spec_organization_result(c: ClientV) -> OrganizationV {
        match c.organization {
            Some(o) => o,
            None => Organization::spec_new(),
        }
    }

    /// The client an organization accessor call leaves behind.
    pub open spec fn spec_after_organization(c: ClientV) -> ClientV {
        ClientV { organization: Some(Client::spec_organization_result(c)), ..c }
    }

    /// Create new instance of Organization API
    pub fn organization(&mut self) -> (o: Organization)
        ensures
            o@ == Client::spec_organization_result(old(self)@),
            final(self)@ == Client::spec_after_organization(old(self)@),
    {
        match &self.organization {
            Some(o) => o.clone(),
            None => {
                let o = Organization::new();
                self.organization = Some(o.clone());
                o
            },
        }
    }

    /// The Search API an accessor call returns: the cached instance, or a
    /// fresh one over the configured host and token.
    pub open spec fn spec_search_result(c: ClientV) -> SearchV {
        match c.search {
            Some(s) => s,
            None => Search::spec_new(c.config.host, c.config.token->0),
        }
    }

    /// The client a search accessor call leaves behind.
    pub open spec fn spec_after_search(c: ClientV) -> ClientV {
        ClientV { search: Some(Client::spec_search_result(c)), ..c }
    }

    /// Create new instance of Search API
    pub fn search(&mut self) -> (s: Search)
        requires
            old(self).wf(),
        ensures
            s@ == Client::spec_search_result(old(self)@),
            final(self)@ == Client::spec_after_search(old(self)@),
            final(self).wf(),
    {
        match &self.search {
            Some(s) => s.clone(),
            None => {
                proof {
                    reveal_strlit("GRAFANA_HOST");
                    reveal_strlit("GRAFANA_TOKEN");
                    assert("GRAFANA_HOST"@[8] == 'H' && "GRAFANA_TOKEN"@[8] == 'T');
                    assert("GRAFANA_HOST"@ != "GRAFANA_TOKEN"@);
                }
                let host = match self.config.get("GRAFANA_HOST") {
                    Some(h) => h,
                    None => unreached(),
                };
                let token = match self.config.get("GRAFANA_TOKEN") {
                    Some(t) => t,
                    None => unreached(),
                };
                let s = Search::new(host, token);
                self.search = Some(s.clone());
                s
            },
        }
    }
}

/// Each resource API is constructed at most once per client: an accessor
/// invoked on the client a first call leaves behind returns the very
/// instance the first call produced, and leaves the client unchanged.
pub proof fn lemma_accessors_construct_at_most_once(c: ClientV)
    ensures
        Client::spec_annotations_result(Client::spec_after_annotations(c))
            == Client::spec_annotations_result(c),
        Client::spec_after_annotations(Client::spec_after_annotations(c))
            == Client::spec_after_annotations(c),
        Client::spec_alerting_provisioning_result(Client::spec_after_alerting_provisioning(c))
            == Client::spec_alerting_provisioning_result(c),
        Client::spec_after_alerting_provisioning(Client::spec_after_alerting_provisioning(c))
            == Client::spec_after_alerting_provisioning(c),
        Client::spec_dashboard_result(Client::spec_after_dashboard(c))
            == Client::spec_dashboard_result(c),
        Client::spec_after_dashboard(Client::spec_after_dashboard(c))
            == Client::spec_after_dashboard(c),
        Client::spec_data_source_result(Client::spec_after_data_source(c))
            == Client::spec_data_source_result(c),
        Client::spec_after_data_source(Client::spec_after_data_source(c))
            == Client::spec_after_data_source(c),
        Client::spec_folder_result(Client::spec_after_folder(c)) == Client::spec_folder_result(c),
        Client::spec_after_folder(Client::spec_after_folder(c)) == Client::spec_after_folder(c),
        Client::spec_organization_result(Client::spec_after_organization(c))
            == Client::spec_organization_result(c),
        Client::spec_after_organization(Client::spec_after_organization(c))
            == Client::spec_after_organization(c),
        Client::spec_search_result(Client::spec_after_search(c)) == Client::spec_search_result(c),
        Client::spec_after_search(Client::spec_after_search(c)) == Client::spec_after_search(c),
{
}

} // verus!
