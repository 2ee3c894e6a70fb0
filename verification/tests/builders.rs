//! Builder behaviour: fresh builders hold the documented defaults, chained
//! setters win over earlier values, and `build` carries the accumulated
//! fields into the model.

use grafana_lib::client::Client;
use grafana_lib::community::annotations::AnnotationsModel;
use grafana_lib::community::dashboard::{DashboardBuilder, DashboardModel, PanelBuilder};
use grafana_lib::community::data_source::DataSourceBuilder;

#[test]
fn test_new_dashboard() {
    let dashboard = DashboardBuilder::new("test".to_string()).build();
    let test_dashboard = DashboardModel {
        id: None,
        panels: None,
        title: Some(String::from("test")),
        uid: None,
        timezone: None,
        schema_version: Some(0),
        tags: None,
        refresh: None,
        version: Some(0),
    };
    assert_eq!(dashboard, test_dashboard);
}

#[test]
fn test_dashboard_with_schema_version() {
    let dashboard = DashboardBuilder::new("test".to_string()).schema_version(1).build();
    let test_dashboard = DashboardModel {
        id: None,
        panels: None,
        title: Some(String::from("test")),
        uid: None,
        timezone: None,
        schema_version: Some(1),
        tags: None,
        refresh: None,
        version: Some(0),
    };
    assert_eq!(dashboard, test_dashboard);
}

#[test]
fn dashboard_builder_last_value_wins() {
    let dashboard = DashboardBuilder::new("first".to_string())
        .title("second".to_string())
        .schema_version(3)
        .schema_version(7)
        .build();
    assert_eq!(dashboard.title, Some(String::from("second")));
    assert_eq!(dashboard.schema_version, Some(7));
}

#[test]
fn dashboard_builder_keeps_panels() {
    let panel = PanelBuilder::new("MyPanel".to_string()).with_type("graph".to_string()).build();
    assert_eq!(panel.title, String::from("MyPanel"));
    assert_eq!(panel.id, 0);
    assert_eq!(panel.kind, String::from("graph"));
    let dashboard = DashboardBuilder::new("MyDashboard".to_string()).with_panels(vec![panel]).build();
    let panels = dashboard.panels.expect("panels were set on the builder");
    assert_eq!(panels.len(), 1);
    assert_eq!(panels[0].title, String::from("MyPanel"));
}

#[test]
fn panel_builder_defaults() {
    let panel = PanelBuilder::new("bare".to_string()).build();
    assert_eq!(panel.title, String::from("bare"));
    assert_eq!(panel.id, 0);
    assert_eq!(panel.kind, String::new());
}

#[test]
fn data_source_builder_defaults_and_url() {
    let bare = DataSourceBuilder::new("MyDataSource".to_string()).build();
    assert_eq!(bare.name, String::from("MyDataSource"));
    assert_eq!(bare.kind, None);
    assert_eq!(bare.url, None);
    assert_eq!(bare.basic_auth, Some(false));

    let with_url = DataSourceBuilder::new("MyDataSource".to_string())
        .with_url("http://somedata.com".to_string())
        .build();
    assert_eq!(with_url.url, Some(String::from("http://somedata.com")));
}

#[test]
fn annotations_with_model_matches_singleton_vector() {
    let model = AnnotationsModel { dashboard_id: 1, panel_id: 2, text: "note".to_string() };
    let same = AnnotationsModel { dashboard_id: 1, panel_id: 2, text: "note".to_string() };
    let mut client = Client::new("http://localhost:3000".to_string(), Vec::new());
    let one = client.annotations().with_model(model);
    let via_vec = client.annotations().with_model_vec(vec![same]);
    assert_eq!(one, via_vec);
}
