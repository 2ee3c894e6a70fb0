//! Request-path construction for every resource API.

use grafana_lib::community::alerting_provisioning::{AlertRule, ContactPoint};
use grafana_lib::community::annotations::Annotations;
use grafana_lib::community::dashboard::Dashboard;
use grafana_lib::community::data_source::DataSource;
use grafana_lib::community::search::Search;

#[test]
fn search_dashboard_path_with_query() {
    let path = Search::dashboard_path(Some("foo".to_string()));
    assert_eq!(path, String::from("search?type=dash-db&query=foo"));
    assert!(path.contains("type=dash-db&query=foo"));
}

#[test]
fn search_dashboard_path_without_query() {
    let path = Search::dashboard_path(None);
    assert_eq!(path, String::from("search?type=dash-db"));
    assert!(!path.contains("query="));
}

#[test]
fn search_folder_paths() {
    assert_eq!(
        Search::folder_path(Some("ops".to_string())),
        String::from("search?type=dash-folder&query=ops")
    );
    assert_eq!(Search::folder_path(None), String::from("search?type=dash-folder"));
}

#[test]
fn annotations_path_applies_default_limit() {
    assert_eq!(Annotations::list_path(None, None), String::from("annotations?limit=25"));
}

#[test]
fn annotations_path_with_limit_and_dashboard() {
    let path = Annotations::list_path(Some(5), Some(12));
    assert_eq!(path, String::from("annotations?limit=5&dashboardId=12"));
    assert!(path.contains("limit=5"));
    assert!(path.contains("dashboardId=12"));
}

#[test]
fn annotations_path_multi_digit_numbers() {
    assert_eq!(
        Annotations::list_path(Some(12345), Some(60042)),
        String::from("annotations?limit=12345&dashboardId=60042")
    );
    assert_eq!(Annotations::list_path(Some(0), None), String::from("annotations?limit=0"));
}

#[test]
fn dashboard_get_path_by_uid() {
    assert_eq!(Dashboard::get_path("cIBgcSjkk"), String::from("dashboards/uid/cIBgcSjkk"));
}

#[test]
fn datasource_and_provisioning_paths() {
    assert_eq!(DataSource::get_path(), String::from("datasources"));
    assert_eq!(AlertRule::list_path(), String::from("v1/provisioning/alert-rules"));
    assert_eq!(ContactPoint::list_path(), String::from("v1/provisioning/contact-points"));
}
