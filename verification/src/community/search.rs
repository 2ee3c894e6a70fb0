//! Search Module

use vstd::prelude::*;

use crate::common::api::{Api, ApiV};
use crate::common::error::{GrafanaError, GrafanaErrorV};
use crate::common::json::{json_of, parse_value, value_as_array, value_model};
use crate::community::dashboard::{
    DashboardModel, dashboard_list_from_value, spec_dashboard_list_of,
};
use crate::community::folder::{
    FolderModel, all_folders, folder_from_value, folders_of, spec_folder_list_of, spec_folder_of,
};

verus! {

/// Dashboard Search Results
#[derive(Debug)]
pub struct DashboardResult {
    /// Unique id of the found dashboard
    pub id: String,
}

/// Folder Search Results
#[derive(Debug)]
pub struct FolderResult {
    /// Unique id of the found folder
    pub id: String,
}

/// Ghost model of a [`Search`] API value.
pub ghost struct SearchV {
    /// Transport description
    pub api: ApiV,
}

/// Search Structure
#[derive(Debug, PartialEq)]
pub struct Search {
    api: Api,
}

impl View for Search {
    type V = SearchV;

    closed spec fn view(&self) -> SearchV {
        SearchV { api: self.api@ }
    }
}

impl Clone for Search {
    /// Clones are equal to the original, field for field.
    fn clone(&self) -> (r: Self)
        ensures
            r@ == self@,
    {
        Search { api: self.api.clone() }
    }
}

impl Search {
    /// The view of a freshly constructed Search API: the transport over
    /// `host` and `token`.
    pub open spec fn spec_new(host: Seq<char>, token: Seq<char>) -> SearchV {
        SearchV { api: ApiV { host: host + "/api"@, token } }
    }

    /// Create a new search instance
    pub fn new(host: String, token: String) -> (s: Search)
        ensures
            s@ == Search::spec_new(host@, token@),
    {
        Search { api: Api::new(host, token) }
    }

    /// The request path of a dashboard search: the fixed type
    /// discriminator, and the query filter only when one is given.
    pub open spec fn spec_dashboard_path(query: Option<Seq<char>>) -> Seq<char> {
        match query {
            Some(q) => "search?type=dash-db&query="@ + q,
            None => "search?type=dash-db"@,
        }
    }

    /// Build the request path of a dashboard search.
    pub fn dashboard_path(query: Option<String>) -> (r: String)
        ensures
            r@ == Search::spec_dashboard_path(query.deep_view()),
    {
        match query {
            Some(q) => {
                let mut r = String::from_str("search?type=dash-db&query=");
                r.append(q.as_str());
                r
            },
            None => String::from_str("search?type=dash-db"),
        }
    }

    /// The request path of a folder search.
    pub open spec fn spec_folder_path(query: Option<Seq<char>>) -> Seq<char> {
        match query {
            Some(q) => "search?type=dash-folder&query="@ + q,
            None => "search?type=dash-folder"@,
        }
    }

    /// Build the request path of a folder search.
    pub fn folder_path(query: Option<String>) -> (r: String)
        ensures
            r@ == Search::spec_folder_path(query.deep_view()),
    {
        match query {
            Some(q) => {
                let mut r = String::from_str("search?type=dash-folder&query=");
                r.append(q.as_str());
                r
            },
            None => String::from_str("search?type=dash-folder"),
        }
    }

    /// Decode the response body of a dashboard search.
    pub fn parse_dashboard_response(body: &str) -> (r: Result<Vec<DashboardModel>, GrafanaError>)
        ensures
            match json_of(body@) {
                Some(j) => match spec_dashboard_list_of(j) {
                    Some(l) => r is Ok && r->Ok_0.deep_view() == l,
                    None => r is Err && r->Err_0@ == (GrafanaErrorV {
                        message: "Could not decode response"@,
                        status: "-1"@,
                    }),
                },
                None => r is Err && r->Err_0@.status == "-1"@,
            },
    {
        let v = match parse_value(body) {
            Ok(v) => v,
            Err(e) => {
                return Err(GrafanaError::new(e, String::from_str("-1")));
            },
        };
        match dashboard_list_from_value(&v) {
            Ok(l) => Ok(l),
            Err(_) => Err(
                GrafanaError::new(
                    String::from_str("Could not decode response"),
                    String::from_str("-1"),
                ),
            ),
        }
    }

    /// Decode the response body of a folder search.
    pub fn parse_folder_response(body: &str) -> (r: Result<Vec<FolderModel>, GrafanaError>)
        ensures
            match json_of(body@) {
                Some(j) => match spec_folder_list_of(j) {
                    Some(l) => r is Ok && r->Ok_0.deep_view() == l,
                    None => r is Err && r->Err_0@ == (GrafanaErrorV {
                        message: "Could not decode response"@,
                        status: "-1"@,
                    }),
                },
                None => r is Err && r->Err_0@.status == "-1"@,
            },
    {
        let v = match parse_value(body) {
            Ok(v) => v,
            Err(e) => {
                return Err(GrafanaError::new(e, String::from_str("-1")));
            },
        };
        let ghost j = value_model(v);
        match value_as_array(&v) {
            None => Err(
                GrafanaError::new(
                    String::from_str("Could not decode response"),
                    String::from_str("-1"),
                ),
            ),
            Some(items) => {
                let ghost a = j->Arr_0;
                let mut out: Vec<FolderModel> = Vec::new();
                let mut i: usize = 0;
                while i < items.len()
                    invariant
                        i <= items@.len(),
                        items@.len() == a.len(),
                        forall|k: int|
                            0 <= k < a.len() ==> value_model(#[trigger] items@[k]) == a[k],
                        forall|k: int| 0 <= k < i ==> spec_folder_of(a[k]) is Some,
                        out@.len() == i,
                        forall|k: int|
                            0 <= k < i ==> #[trigger] out.deep_view()[k] == spec_folder_of(
                                a[k],
                            )->0,
                        j is Arr,
                        a == j->Arr_0,
                        json_of(body@) == Some(j),
                    decreases items@.len() - i,
                {
                    match folder_from_value(&items[i]) {
                        Ok(m) => {
                            let ghost prevv = out@;
                            let ghost prevdv = out.deep_view();
                            let ghost ev = m;
                            out.push(m);
                            proof {
                                assert(out@ == prevv.push(ev));
                                assert forall|k: int| 0 <= k <= i implies #[trigger] out
                                    .deep_view()[k] == spec_folder_of(a[k])->0 by {
                                    assert(prevv.push(ev)[k] == out@[k]);
                                    if k < i {
                                        assert(prevdv[k] == spec_folder_of(a[k])->0);
                                        assert(prevdv[k] == prevv[k].deep_view());
                                        assert(out.deep_view()[k] == prevv[k].deep_view());
                                    } else {
                                        assert(out@[k] == ev);
                                        assert(out.deep_view()[k] == ev.deep_view());
                                    }
                                }
                            }
                        },
                        Err(_) => {
                            proof {
                                assert(spec_folder_of(a[i as int]) is None);
                                assert(!all_folders(a));
                            }
                            return Err(
                                GrafanaError::new(
                                    String::from_str("Could not decode response"),
                                    String::from_str("-1"),
                                ),
                            );
                        },
                    }
                    i = i + 1;
                }
                proof {
                    assert(all_folders(a));
                    assert(out.deep_view() =~~= folders_of(a));
                }
                Ok(out)
            },
        }
    }
}

} // verus!
