//! The deliberately unimplemented operations return their documented errors
//! without any network call, and a data source model survives a round trip
//! through its JSON encoding.

use grafana_lib::client::Client;
use grafana_lib::community::authentication::{Authentication, AuthenticationKey};
use grafana_lib::community::dashboard::{Dashboard, DashboardBuilder};
use grafana_lib::community::data_source::{DataSourceBuilder, datasource_from_value};
use grafana_lib::community::folder::{Folder, FolderModel};
use grafana_lib::community::organization::Organization;

#[test]
fn dashboard_send_reports_not_implemented() {
    let mut client = Client::new("http://localhost:3000".to_string(), Vec::new());
    let model = DashboardBuilder::new("My Dashboard".to_string()).build();
    let err = client
        .dashboard()
        .create(model)
        .with_message("My New Dashboard".to_string())
        .with_folder_id(6)
        .send()
        .expect_err("send is a placeholder");
    assert_eq!(err.message(), &String::from("Not implemented"));
    assert_eq!(err.status(), &String::from("ERROR"));
}

#[test]
fn dashboard_validate_for_create_rejects_ids() {
    let mut client = Client::new("http://localhost:3000".to_string(), Vec::new());
    let fresh = client.dashboard().create(DashboardBuilder::new("d".to_string()).build());
    assert!(Dashboard::validate_for_create(fresh).is_ok());

    let mut model = DashboardBuilder::new("d".to_string()).build();
    model.id = Some(4);
    let with_id = client.dashboard().create(model);
    assert_eq!(
        Dashboard::validate_for_create(with_id),
        Err(String::from("Cannot specifiy id on create"))
    );
}

#[test]
fn organization_send_requires_credentials() {
    let err = Organization::new().create("MyOrg".to_string()).send().expect_err("no credentials");
    assert_eq!(err, String::from("Basic Auth Credentials not set"));

    let err = Organization::new()
        .create("MyOrg".to_string())
        .with_user("user".to_string())
        .send()
        .expect_err("password still missing");
    assert_eq!(err, String::from("Basic Auth Credentials not set"));

    let err = Organization::new()
        .create("MyOrg".to_string())
        .with_user("user".to_string())
        .with_pass("pass".to_string())
        .send()
        .expect_err("creation is a placeholder");
    assert_eq!(err, String::from("Org Create: Not implemented"));
}

#[test]
fn folder_send_reports_not_implemented() {
    let err = Folder::new()
        .create(FolderModel::new("my folder".to_string()))
        .send()
        .expect_err("send is a placeholder");
    assert_eq!(err, String::from("Create Folder: Not implemented"));
}

#[test]
fn folder_model_new_defaults() {
    let model = FolderModel::new("my folder".to_string());
    assert_eq!(model.id, 0);
    assert_eq!(model.title, String::from("my folder"));
    assert_eq!(model.uid, None);
    assert!(!model.is_starred);
}

#[test]
fn datasource_send_reports_not_implemented() {
    let mut client = Client::new("http://localhost:3000".to_string(), Vec::new());
    let model = DataSourceBuilder::new("MyDataSource".to_string()).build();
    let err = client
        .data_source()
        .create(model)
        .expect("create attaches the model")
        .send()
        .expect_err("send is a placeholder");
    assert_eq!(err, String::from("datasource.send() - Not implemented"));
}

#[test]
fn authentication_operations_report_not_implemented() {
    assert_eq!(Authentication::keys().expect_err("placeholder"), String::from("Notimplemented"));
    let key = AuthenticationKey {
        id: 1,
        name: "k".to_string(),
        role: "Admin".to_string(),
        expiration: None,
    };
    assert_eq!(
        Authentication::create(key).expect_err("placeholder"),
        String::from("Not Implemented")
    );
    let key = AuthenticationKey {
        id: 2,
        name: "k2".to_string(),
        role: "Viewer".to_string(),
        expiration: Some("2030-01-01".to_string()),
    };
    assert_eq!(
        Authentication::delete(key).expect_err("placeholder"),
        String::from("Not implemented")
    );
}

#[test]
fn datasource_round_trip_preserves_fields() {
    let model = DataSourceBuilder::new("x".to_string())
        .with_url("http://y".to_string())
        .build();
    let value = model.to_json_value();
    let text = serde_json::to_string(&value).expect("a Value always serializes");
    let parsed: serde_json::Value = serde_json::from_str(&text).expect("its output parses back");
    let decoded = datasource_from_value(&parsed).expect("the document decodes");
    assert_eq!(decoded.name, String::from("x"));
    assert_eq!(decoded.url, Some(String::from("http://y")));
    assert_eq!(decoded.basic_auth, Some(false));
    assert_eq!(decoded, model);
}

#[test]
fn datasource_round_trip_with_type_set() {
    let value = grafana_lib::community::data_source::DataSourceModel {
        name: "n".to_string(),
        kind: Some("prometheus".to_string()),
        url: None,
        basic_auth: Some(true),
    };
    let encoded = value.to_json_value();
    let decoded = datasource_from_value(&encoded).expect("the document decodes");
    assert_eq!(decoded, value);
}
