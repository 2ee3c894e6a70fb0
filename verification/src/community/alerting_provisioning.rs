//! Alerting Provisioning Module

use vstd::prelude::*;

use crate::common::api::{Api, ApiV};
use crate::common::error::{GrafanaError, GrafanaErrorV};
use crate::common::json::{JsonData, json_of, parse_value, value_as_str};

verus! {

/// Ghost model of an [`AlertRule`].
pub ghost struct AlertRuleV {
    /// Transport description
    pub api: ApiV,
}

/// Alert Rule Model
#[derive(Debug, PartialEq)]
pub struct AlertRule {
    api: Api,
}

impl View for AlertRule {
    type V = AlertRuleV;

    closed spec fn view(&self) -> AlertRuleV {
        AlertRuleV { api: self.api@ }
    }
}

impl Clone for AlertRule {
    /// Clones are equal to the original, field for field.
    fn clone(&self) -> (r: Self)
        ensures
            r@ == self@,
    {
        AlertRule { api: self.api.clone() }
    }
}

/// Decoding of a provisioning listing body: the library reports the body's
/// JSON string contents.
pub open spec fn spec_listing_of(j: JsonData) -> Option<Seq<char>> {
    match j {
        JsonData::Str(s) => Some(s),
        _ => None,
    }
}

/// Decodes a provisioning listing response body: a JSON string.
fn parse_listing(body: &str) -> (r: Result<String, GrafanaError>)
    ensures
        match json_of(body@) {
            Some(j) => match spec_listing_of(j) {
                Some(s) => r is Ok && r->Ok_0@ == s,
                None => r is Err && r->Err_0@ == (GrafanaErrorV {
                    message: "Could not decode response"@,
                    status: "-1"@,
                }),
            },
            None => r is Err && r->Err_0@.status == "-1"@,
        },
{
    let v = match parse_value(body) {
        Ok(v) => v,
        Err(e) => {
            return Err(GrafanaError::new(e, String::from_str("-1")));
        },
    };
    match value_as_str(&v) {
        Some(s) => Ok(String::from_str(s)),
        None => Err(
            GrafanaError::new(
                String::from_str("Could not decode response"),
                String::from_str("-1"),
            ),
        ),
    }
}

impl AlertRule {
    /// Create new instance of Alert Rule Model
    pub fn new(api: Api) -> (a: AlertRule)
        ensures
            a@ == (AlertRuleV { api: api@ }),
    {
        AlertRule { api }
    }

    /// The request path for listing alert rules.
    pub open spec fn spec_list_path() -> Seq<char> {
        "v1/provisioning/alert-rules"@
    }

    /// Build the request path for listing alert rules.
    pub fn list_path() -> (r: String)
        ensures
            r@ == AlertRule::spec_list_path(),
    {
        String::from_str("v1/provisioning/alert-rules")
    }

    /// Decode the response body of an alert rule listing.
    pub fn parse_list_response(body: &str) -> (r: Result<String, GrafanaError>)
        ensures
            match json_of(body@) {
                Some(j) => match spec_listing_of(j) {
                    Some(s) => r is Ok && r->Ok_0@ == s,
                    None => r is Err && r->Err_0@ == (GrafanaErrorV {
                        message: "Could not decode response"@,
                        status: "-1"@,
                    }),
                },
                None => r is Err && r->Err_0@.status == "-1"@,
            },
    {
        parse_listing(body)
    }
}

/// Ghost model of a [`ContactPoint`].
pub ghost struct ContactPointV {
    /// Transport description
    pub api: ApiV,
}

/// Contact Point Model
#[derive(Debug, PartialEq)]
pub struct ContactPoint {
    api: Api,
}

impl View for ContactPoint {
    type V = ContactPointV;

    closed spec fn view(&self) -> ContactPointV {
        ContactPointV { api: self.api@ }
    }
}

impl Clone for ContactPoint {
    /// Clones are equal to the original, field for field.
    fn clone(&self) -> (r: Self)
        ensures
            r@ == self@,
    {
        ContactPoint { api: self.api.clone() }
    }
}

impl ContactPoint {
    /// Create a new instance of the Contact Point model
    pub fn new(api: Api) -> (c: ContactPoint)
        ensures
            c@ == (ContactPointV { api: api@ }),
    {
        ContactPoint { api }
    }

    /// The request path for listing contact points.
    pub open spec fn spec_list_path() -> Seq<char> {
        "v1/provisioning/contact-points"@
    }

    /// Build the request path for listing contact points.
    pub fn list_path() -> (r: String)
        ensures
            r@ == ContactPoint::spec_list_path(),
    {
        String::from_str("v1/provisioning/contact-points")
    }

    /// Decode the response body of a contact point listing.
    pub fn parse_list_response(body: &str) -> (r: Result<String, GrafanaError>)
        ensures
            match json_of(body@) {
                Some(j) => match spec_listing_of(j) {
                    Some(s) => r is Ok && r->Ok_0@ == s,
                    None => r is Err && r->Err_0@ == (GrafanaErrorV {
                        message: "Could not decode response"@,
                        status: "-1"@,
                    }),
                },
                None => r is Err && r->Err_0@.status == "-1"@,
            },
    {
        parse_listing(body)
    }
}

/// Notification Policy Model
#[derive(Debug, PartialEq, Clone, Copy)]
pub struct NotificationPolicy {}

/// Mute Timings Model
#[derive(Debug, PartialEq, Clone, Copy)]
pub struct MuteTimings {}

/// Template Model
#[derive(Debug, PartialEq, Clone, Copy)]
pub struct Template {}

/// Ghost model of an [`AlertProvisioningModel`]: which parts are attached.
pub ghost struct AlertProvisioningModelV {
    /// Alert rule part
    pub alert_rule: Option<AlertRuleV>,
    /// Contact point part
    pub contact_point: Option<ContactPointV>,
    /// Whether a notification policy is attached
    pub notification_policy: bool,
    /// Whether mute timings are attached
    pub mute_timings: bool,
    /// Whether a template is attached
    pub template: bool,
}

/// Alerting Provisioning Model
#[derive(Debug, PartialEq)]
pub struct AlertProvisioningModel {
    /// Alert Rule
    pub alert_rule: Option<AlertRule>,
    /// Contact Point
    pub contact_point: Option<ContactPoint>,
    /// Notification Policy
    pub notification_policy: Option<NotificationPolicy>,
    /// Mute Timings
    pub mute_timings: Option<MuteTimings>,
    /// Template
    pub template: Option<Template>,
}

/// The view of an optional alert rule.
pub open spec fn opt_alert_rule_view(o: Option<AlertRule>) -> Option<AlertRuleV> {
    match o {
        Some(a) => Some(a@),
        None => None,
    }
}

/// The view of an optional contact point.
pub open spec fn opt_contact_point_view(o: Option<ContactPoint>) -> Option<ContactPointV> {
    match o {
        Some(c) => Some(c@),
        None => None,
    }
}

impl View for AlertProvisioningModel {
    type V = AlertProvisioningModelV;

    open spec fn view(&self) -> AlertProvisioningModelV {
        AlertProvisioningModelV {
            alert_rule: opt_alert_rule_view(self.alert_rule),
            contact_point: opt_contact_point_view(self.contact_point),
            notification_policy: self.notification_policy is Some,
            mute_timings: self.mute_timings is Some,
            template: self.template is Some,
        }
    }
}

impl DeepView for AlertProvisioningModel {
    type V = AlertProvisioningModelV;

    open spec fn deep_view(&self) -> AlertProvisioningModelV {
        self.view()
    }
}

/// Copies an optional alert rule.
fn clone_opt_alert_rule(o: &Option<AlertRule>) -> (r: Option<AlertRule>)
    ensures
        opt_alert_rule_view(r) == opt_alert_rule_view(*o),
{
    match o {
        Some(a) => Some(a.clone()),
        None => None,
    }
}

/// Copies an optional contact point.
fn clone_opt_contact_point(o: &Option<ContactPoint>) -> (r: Option<ContactPoint>)
    ensures
        opt_contact_point_view(r) == opt_contact_point_view(*o),
{
    match o {
        Some(c) => Some(c.clone()),
        None => None,
    }
}

impl Clone for AlertProvisioningModel {
    /// Clones have the same model as the original.
    fn clone(&self) -> (r: Self)
        ensures
            r@ == self@,
    {
        AlertProvisioningModel {
            alert_rule: clone_opt_alert_rule(&self.alert_rule),
            contact_point: clone_opt_contact_point(&self.contact_point),
            notification_policy: match &self.notification_policy {
                Some(_) => Some(NotificationPolicy {}),
                None => None,
            },
            mute_timings: match &self.mute_timings {
                Some(_) => Some(MuteTimings {}),
                None => None,
            },
            template: match &self.template {
                Some(_) => Some(Template {}),
                None => None,
            },
        }
    }
}

impl AlertProvisioningModel {
    /// The view of an empty model: nothing attached.
    pub open spec fn spec_empty() -> AlertProvisioningModelV {
        AlertProvisioningModelV {
            alert_rule: None,
            contact_point: None,
            notification_policy: false,
            mute_timings: false,
            template: false,
        }
    }

    /// Return the attached AlertRule model, constructing one over `api` the
    /// first time.
    pub fn alert_rule(self, api: Api) -> (r: AlertRule)
        ensures
            r@ == match self@.alert_rule {
                Some(a) => a,
                None => AlertRuleV { api: api@ },
            },
    {
        match self.alert_rule {
            Some(ar) => ar,
            None => AlertRule::new(api),
        }
    }

    /// Return the attached ContactPoint model, constructing one over `api`
    /// the first time.
    pub fn contact_point(self, api: Api) -> (r: ContactPoint)
        ensures
            r@ == match self@.contact_point {
                Some(c) => c,
                None => ContactPointV { api: api@ },
            },
    {
        match self.contact_point {
            Some(cp) => cp,
            None => ContactPoint::new(api),
        }
    }
}

/// Ghost model of an [`AlertingProvisioningBuilder`].
pub ghost struct AlertingProvisioningBuilderV {
    /// Alert rule part
    pub alert_rule: Option<AlertRuleV>,
    /// Contact point part
    pub contact_point: Option<ContactPointV>,
    /// Whether a notification policy is attached
    pub notification_policy: bool,
    /// Whether mute timings are attached
    pub mute_timings: bool,
    /// Whether a template is attached
    pub template: bool,
}

/// Builder struct for creating an AlertProvisioningModel
pub struct AlertingProvisioningBuilder {
    alert_rule: Option<AlertRule>,
    contact_point: Option<ContactPoint>,
    notification_policy: Option<NotificationPolicy>,
    mute_timings: Option<MuteTimings>,
    template: Option<Template>,
}

impl View for AlertingProvisioningBuilder {
    type V = AlertingProvisioningBuilderV;

    closed spec fn view(&self) -> AlertingProvisioningBuilderV {
        AlertingProvisioningBuilderV {
            alert_rule: opt_alert_rule_view(self.alert_rule),
            contact_point: opt_contact_point_view(self.contact_point),
            notification_policy: self.notification_policy is Some,
            mute_timings: self.mute_timings is Some,
            template: self.template is Some,
        }
    }
}

impl AlertingProvisioningBuilder {
    /// Create empty builder instance
    pub fn new() -> (b: AlertingProvisioningBuilder)
        ensures
            b@ == (AlertingProvisioningBuilderV {
                alert_rule: None,
                contact_point: None,
                notification_policy: false,
                mute_timings: false,
                template: false,
            }),
    {
        AlertingProvisioningBuilder {
            alert_rule: None,
            contact_point: None,
            notification_policy: None,
            mute_timings: None,
            template: None,
        }
    }

    /// Add alert rule
    pub fn with_alert_rule(self, alert_rule: AlertRule) -> (b: AlertingProvisioningBuilder)
        ensures
            b@ == (AlertingProvisioningBuilderV { alert_rule: Some(alert_rule@), ..self@ }),
    {
        AlertingProvisioningBuilder { alert_rule: Some(alert_rule), ..self }
    }

    /// Add Contact Point
    pub fn with_contact_point(self, contact_point: ContactPoint) -> (b:
        AlertingProvisioningBuilder)
        ensures
            b@ == (AlertingProvisioningBuilderV { contact_point: Some(contact_point@), ..self@ }),
    {
        AlertingProvisioningBuilder { contact_point: Some(contact_point), ..self }
    }

    /// Add Notification Policy
    pub fn with_notification_policy(self, notification_policy: NotificationPolicy) -> (b:
        AlertingProvisioningBuilder)
        ensures
            b@ == (AlertingProvisioningBuilderV { notification_policy: true, ..self@ }),
    {
        AlertingProvisioningBuilder { notification_policy: Some(notification_policy), ..self }
    }

    /// Add Mute Timings
    pub fn with_mute_timings(self, mute_timings: MuteTimings) -> (b: AlertingProvisioningBuilder)
        ensures
            b@ == (AlertingProvisioningBuilderV { mute_timings: true, ..self@ }),
    {
        AlertingProvisioningBuilder { mute_timings: Some(mute_timings), ..self }
    }

    /// Add Template
    pub fn with_template(self, template: Template) -> (b: AlertingProvisioningBuilder)
        ensures
            b@ == (AlertingProvisioningBuilderV { template: true, ..self@ }),
    {
        AlertingProvisioningBuilder { template: Some(template), ..self }
    }

    /// Build Alerting Provisioning model: each part holds the last value
    /// set on the builder.
    pub fn build(self) -> (m: AlertProvisioningModel)
        ensures
            m@ == (AlertProvisioningModelV {
                alert_rule: self@.alert_rule,
                contact_point: self@.contact_point,
                notification_policy: self@.notification_policy,
                mute_timings: self@.mute_timings,
                template: self@.template,
            }),
    {
        AlertProvisioningModel {
            alert_rule: self.alert_rule,
            contact_point: self.contact_point,
            notification_policy: self.notification_policy,
            mute_timings: self.mute_timings,
            template: self.template,
        }
    }
}

/// Ghost model of an [`AlertingProvisioning`] API value.
pub ghost struct AlertingProvisioningV {
    /// Transport description
    pub api: ApiV,
    /// Attached provisioning model, if any
    pub model: Option<AlertProvisioningModelV>,
}

/// Alerting Provisioning Struct
#[derive(Debug, PartialEq)]
pub struct AlertingProvisioning {
    api: Api,
    model: Option<AlertProvisioningModel>,
}

impl View for AlertingProvisioning {
    type V = AlertingProvisioningV;

    closed spec fn view(&self) -> AlertingProvisioningV {
        AlertingProvisioningV { api: self.api@, model: self.model.deep_view() }
    }
}

/// Copies an optional provisioning model.
fn clone_opt_ap_model(o: &Option<AlertProvisioningModel>) -> (r: Option<AlertProvisioningModel>)
    ensures
        r.deep_view() == o.deep_view(),
{
    match o {
        Some(m) => Some(m.clone()),
        None => None,
    }
}

impl Clone for AlertingProvisioning {
    /// Clones have the same model as the original.
    fn clone(&self) -> (r: Self)
        ensures
            r@ == self@,
    {
        AlertingProvisioning { api: self.api.clone(), model: clone_opt_ap_model(&self.model) }
    }
}

impl AlertingProvisioning {
    /// The view of a freshly constructed AlertingProvisioning API over
    /// `api`: an empty model is attached from the start.
    pub open spec fn spec_new(api: ApiV) -> AlertingProvisioningV {
        AlertingProvisioningV { api, model: Some(AlertProvisioningModel::spec_empty()) }
    }

    /// Whether the API value is fit for use: it holds a model, as every
    /// value built by this library does.
    pub open spec fn wf(&self) -> bool {
        self@.model is Some
    }

    /// Create new instance of Alerting Provisioning API
    pub fn new(api: Api) -> (a: AlertingProvisioning)
        ensures
            a@ == AlertingProvisioning::spec_new(api@),
            a.wf(),
    {
        AlertingProvisioning {
            api,
            model: Some(
                AlertProvisioningModel {
                    alert_rule: None,
                    contact_point: None,
                    notification_policy: None,
                    mute_timings: None,
                    template: None,
                },
            ),
        }
    }

    /// Attach an alerting provisioning model.
    pub fn create(self, alert_provisioning_model: AlertProvisioningModel) -> (a:
        AlertingProvisioning)
        ensures
            a@ == (AlertingProvisioningV {
                model: Some(alert_provisioning_model@),
                ..self@
            }),
            a.wf(),
    {
        AlertingProvisioning { model: Some(alert_provisioning_model), ..self }
    }

    /// Return instance of AlertRule model
    pub fn alert_rule(self) -> (r: AlertRule)
        requires
            self.wf(),
        ensures
            r@ == match self@.model->0.alert_rule {
                Some(a) => a,
                None => AlertRuleV { api: self@.api },
            },
    {
        match self.model {
            Some(m) => m.alert_rule(self.api),
            None => AlertRule::new(self.api),
        }
    }

    /// Return instance of ContactPoint model
    pub fn contact_point(self) -> (r: ContactPoint)
        requires
            self.wf(),
        ensures
            r@ == match self@.model->0.contact_point {
                Some(c) => c,
                None => ContactPointV { api: self@.api },
            },
    {
        match self.model {
            Some(m) => m.contact_point(self.api),
            None => ContactPoint::new(self.api),
        }
    }
}

} // verus!
