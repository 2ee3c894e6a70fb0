//! Decoding of JSON response bodies into resource models, including the
//! error cases for invalid JSON and for documents of the wrong shape.

use grafana_lib::community::alerting_provisioning::{AlertRule, ContactPoint};
use grafana_lib::community::annotations::Annotations;
use grafana_lib::community::dashboard::Dashboard;
use grafana_lib::community::data_source::DataSource;
use grafana_lib::community::search::Search;

#[test]
fn full_dashboard_decodes() {
    let body = r#"{
        "meta": {"folderTitle": "General", "createdBy": "admin", "updatedBy": "editor"},
        "dashboard": {
            "id": 1,
            "uid": "abc",
            "title": "Prod",
            "schemaVersion": 16,
            "version": 2,
            "tags": ["a", "b"],
            "timezone": "utc",
            "refresh": "5s",
            "panels": [{"title": "p1", "id": 3, "type": "graph"}]
        }
    }"#;
    let full = Dashboard::parse_get_response(body).expect("body decodes");
    assert_eq!(full.meta.folder_title, Some(String::from("General")));
    assert_eq!(full.meta.created_by, Some(String::from("admin")));
    assert_eq!(full.meta.updated_by, Some(String::from("editor")));
    assert_eq!(full.dashboard.id, Some(1));
    assert_eq!(full.dashboard.uid, Some(String::from("abc")));
    assert_eq!(full.dashboard.title, Some(String::from("Prod")));
    assert_eq!(full.dashboard.schema_version, Some(16));
    assert_eq!(full.dashboard.version, Some(2));
    assert_eq!(
        full.dashboard.tags,
        Some(vec![String::from("a"), String::from("b")])
    );
    assert_eq!(full.dashboard.timezone, Some(String::from("utc")));
    assert_eq!(full.dashboard.refresh, Some(String::from("5s")));
    let panels = full.dashboard.panels.expect("panels present");
    assert_eq!(panels.len(), 1);
    assert_eq!(panels[0].title, String::from("p1"));
    assert_eq!(panels[0].id, 3);
    assert_eq!(panels[0].kind, String::from("graph"));
}

#[test]
fn full_dashboard_missing_members_are_absent() {
    let body = r#"{"meta": {}, "dashboard": {}}"#;
    let full = Dashboard::parse_get_response(body).expect("body decodes");
    assert_eq!(full.meta.folder_title, None);
    assert_eq!(full.dashboard.uid, None);
    assert_eq!(full.dashboard.panels, None);
    assert_eq!(full.dashboard.schema_version, None);
}

#[test]
fn full_dashboard_invalid_json_is_an_error() {
    let err = Dashboard::parse_get_response("not json at all").expect_err("invalid JSON");
    assert_eq!(err.message(), &String::from("Could not parse JSON"));
    assert_eq!(err.status(), &String::from("ERROR"));
}

#[test]
fn full_dashboard_wrong_shape_is_an_error() {
    let err = Dashboard::parse_get_response("[1, 2]").expect_err("not a full dashboard");
    assert_eq!(err.message(), &String::from("Could not parse JSON"));
    assert_eq!(err.status(), &String::from("ERROR"));
}

#[test]
fn search_dashboard_results_decode() {
    let body = r#"[{"uid": "u1", "title": "One"}, {"title": "Two"}]"#;
    let results = Search::parse_dashboard_response(body).expect("array decodes");
    assert_eq!(results.len(), 2);
    assert_eq!(results[0].uid, Some(String::from("u1")));
    assert_eq!(results[0].title, Some(String::from("One")));
    assert_eq!(results[1].uid, None);
    assert_eq!(results[1].title, Some(String::from("Two")));
}

#[test]
fn search_dashboard_rejects_out_of_range_numbers() {
    let err = Search::parse_dashboard_response(r#"[{"schemaVersion": 70000}]"#)
        .expect_err("schema version exceeds sixteen bits");
    assert_eq!(err.status(), &String::from("-1"));
    assert_eq!(err.message(), &String::from("Could not decode response"));
}

#[test]
fn search_dashboard_non_array_is_an_error() {
    let err = Search::parse_dashboard_response(r#"{"title": "One"}"#).expect_err("not an array");
    assert_eq!(err.status(), &String::from("-1"));
}

#[test]
fn search_folder_results_decode() {
    let body = r#"[{"id": 9, "uid": "fu", "title": "Ops", "isStarred": true,
                    "url": "/f/fu", "type": "dash-folder", "tags": ["x"], "uri": "db/ops"}]"#;
    let results = Search::parse_folder_response(body).expect("array decodes");
    assert_eq!(results.len(), 1);
    assert_eq!(results[0].id, 9);
    assert_eq!(results[0].uid, Some(String::from("fu")));
    assert_eq!(results[0].title, String::from("Ops"));
    assert!(results[0].is_starred);
    assert_eq!(results[0].url, Some(String::from("/f/fu")));
    assert_eq!(results[0].kind, Some(String::from("dash-folder")));
    assert_eq!(results[0].tags, Some(vec![String::from("x")]));
    assert_eq!(results[0].uri, Some(String::from("db/ops")));
}

#[test]
fn search_folder_requires_mandatory_members() {
    let err = Search::parse_folder_response(r#"[{"title": "Ops"}]"#)
        .expect_err("id and isStarred are required");
    assert_eq!(err.message(), &String::from("Could not decode response"));
}

#[test]
fn annotations_decode() {
    let body = r#"[{"dashboardId": 7, "panelId": 2, "text": "deploy"},
                   {"dashboardId": 8, "panelId": 0, "text": ""}]"#;
    let list = Annotations::parse_list_response(body).expect("array decodes");
    assert_eq!(list.len(), 2);
    assert_eq!(list[0].dashboard_id, 7);
    assert_eq!(list[0].panel_id, 2);
    assert_eq!(list[0].text, String::from("deploy"));
    assert_eq!(list[1].text, String::new());
}

#[test]
fn annotations_missing_member_is_an_error() {
    let err = Annotations::parse_list_response(r#"[{"dashboardId": 7}]"#)
        .expect_err("panelId and text are required");
    assert_eq!(err.message(), &String::from("Could not decode response"));
    assert_eq!(err.status(), &String::from("ERROR"));
}

#[test]
fn datasources_decode() {
    let body = r#"[{"name": "ds1", "type": "prometheus", "url": "http://x", "basic_auth": true},
                   {"name": "ds2", "url": null}]"#;
    let list = DataSource::parse_get_response(body).expect("array decodes");
    assert_eq!(list.len(), 2);
    assert_eq!(list[0].name, String::from("ds1"));
    assert_eq!(list[0].kind, Some(String::from("prometheus")));
    assert_eq!(list[0].url, Some(String::from("http://x")));
    assert_eq!(list[0].basic_auth, Some(true));
    assert_eq!(list[1].name, String::from("ds2"));
    assert_eq!(list[1].kind, None);
    assert_eq!(list[1].url, None);
    assert_eq!(list[1].basic_auth, None);
}

#[test]
fn datasources_wrong_shape_is_an_error() {
    let err = DataSource::parse_get_response(r#"{"name": "ds1"}"#).expect_err("not an array");
    assert_eq!(err, String::from("Could not decode response"));
}

#[test]
fn provisioning_listing_decodes_a_json_string() {
    let ok = AlertRule::parse_list_response(r#""rule payload""#).expect("a JSON string");
    assert_eq!(ok, String::from("rule payload"));
    let ok = ContactPoint::parse_list_response(r#""cp payload""#).expect("a JSON string");
    assert_eq!(ok, String::from("cp payload"));
}

#[test]
fn provisioning_listing_rejects_other_documents() {
    let err = AlertRule::parse_list_response("[1]").expect_err("not a JSON string");
    assert_eq!(err.status(), &String::from("-1"));
    assert_eq!(err.message(), &String::from("Could not decode response"));
    let err = ContactPoint::parse_list_response("not json").expect_err("invalid JSON");
    assert_eq!(err.status(), &String::from("-1"));
}
