use qefro_backend_sdk::json::JsonValue;
use qefro_backend_sdk::marketing::{
    require_non_empty, to_marketing_capability, validate_marketing_definition, MarketingAction, MarketingAudience,
    MarketingAudienceAppQuery, MarketingAudienceCustomerHub, MarketingChannel,
    MarketingDefinition, MarketingLandingPage, MarketingVariable,
};

fn sample_def() -> MarketingDefinition {
    MarketingDefinition {
        version: Some(1),
        audiences: vec![MarketingAudience {
            id: "vip".into(),
            label: "VIP".into(),
            description: None,
            source: "customer_hub".into(),
            customer_hub: Some(MarketingAudienceCustomerHub {
                tags: Some(vec!["vip".into()]),
                consent_purpose: Some("marketing".into()),
                attrs: None,
            }),
            app_query: None,
            static_filter: None,
        }],
        variables: vec![MarketingVariable {
            id: "name".into(),
            label: "Name".into(),
            var_type: "string".into(),
            source: "customer_hub".into(),
            path: Some("display_name".into()),
            required: Some(true),
        }],
        actions: vec![MarketingAction {
            id: "book".into(),
            label: "Book".into(),
            kind: "url".into(),
            landing_page_id: Some("booking".into()),
            url_template: None,
            payload: None,
        }],
        landing_pages: vec![MarketingLandingPage {
            id: "booking".into(),
            label: "Booking".into(),
            path: "/booking".into(),
            host: "app".into(),
        }],
        channels: vec![
            MarketingChannel {
                id: "whatsapp".into(),
                provider: Some("meta".into()),
                label: None,
                enabled: Some(true),
            },
            MarketingChannel {
                id: "email".into(),
                provider: Some("sendgrid".into()),
                label: None,
                enabled: Some(true),
            },
        ],
    }
}

fn message_of(def: MarketingDefinition) -> String {
    match validate_marketing_definition(def) {
        Ok(_) => panic!("the definition is valid"),
        Err(e) => e.message().to_string(),
    }
}

fn at<'a>(value: &'a JsonValue, index: usize) -> &'a JsonValue {
    match value {
        JsonValue::Array(items) => &items[index],
        other => panic!("no array: {other:?}"),
    }
}

#[test]
fn validates_full_definition() {
    let reg = validate_marketing_definition(sample_def()).unwrap();
    assert_eq!(reg.version, 1);
    assert_eq!(reg.channels[0].provider.as_deref(), Some("meta"));
    let cap = to_marketing_capability(&reg);
    let wire = cap.to_json();
    assert_eq!(wire.get("version"), Some(&JsonValue::Number("1".into())));
    let metadata = wire.get("metadata").unwrap();
    assert!(matches!(metadata.get("audiences"), Some(JsonValue::Array(_))));
    assert_eq!(at(metadata.get("channels").unwrap(), 0).text("provider"), Some("meta"));
    assert!(wire.get("audiences").is_none());
}

#[test]
fn rejects_bad_source() {
    let mut def = sample_def();
    def.audiences[0].source = "crm".into();
    let err = validate_marketing_definition(def).unwrap_err();
    assert!(err.message().contains("source"));
}

#[test]
fn rejects_duplicate_channel() {
    let mut def = sample_def();
    def.channels.push(MarketingChannel {
        id: "whatsapp".into(),
        provider: None,
        label: None,
        enabled: None,
    });
    let err = validate_marketing_definition(def).unwrap_err();
    assert!(err.message().contains("duplicate channel"));
}

#[test]
fn wire_uses_camel_case_keys() {
    let reg = validate_marketing_definition(sample_def()).unwrap();
    let wire = to_marketing_capability(&reg).to_json();
    let metadata = wire.get("metadata").unwrap();
    assert!(metadata.get("landingPages").is_some());
    assert_eq!(
        at(metadata.get("actions").unwrap(), 0).get("landingPageId"),
        Some(&JsonValue::Str("booking".into()))
    );
}

#[test]
fn wire_of_an_audience() {
    let reg = validate_marketing_definition(sample_def()).unwrap();
    let wire = to_marketing_capability(&reg).to_json();
    let audience = at(wire.get("metadata").unwrap().get("audiences").unwrap(), 0).clone();
    assert_eq!(audience.text("id"), Some("vip"));
    assert!(audience.get("description").is_none());
    let hub = audience.get("customerHub").unwrap();
    assert_eq!(hub.text("consentPurpose"), Some("marketing"));
    assert_eq!(at(hub.get("tags").unwrap(), 0).as_str(), Some("vip"));
    let variable = at(wire.get("metadata").unwrap().get("variables").unwrap(), 0).clone();
    assert_eq!(variable.text("type"), Some("string"));
}

#[test]
fn empty_definition_has_version_one() {
    let reg = validate_marketing_definition(MarketingDefinition::default()).unwrap();
    assert_eq!(reg.version, 1);
    assert!(reg.audiences.is_empty() && reg.channels.is_empty());
}

#[test]
fn version_zero_is_refused() {
    let mut def = sample_def();
    def.version = Some(0);
    assert_eq!(message_of(def), "marketing: version must be a positive integer");
}

#[test]
fn blank_fields_are_refused_by_path() {
    let mut def = sample_def();
    def.audiences[0].id = "  ".into();
    assert_eq!(message_of(def), "marketing: audiences[0].id must be a non-empty string");
    let mut def = sample_def();
    def.variables[0].label = "".into();
    assert_eq!(message_of(def), "marketing: variables[0].label must be a non-empty string");
    let mut def = sample_def();
    def.landing_pages[0].path = "\t".into();
    assert_eq!(message_of(def), "marketing: landingPages[0].path must be a non-empty string");
    let mut def = sample_def();
    def.channels[1].id = "".into();
    assert_eq!(message_of(def), "marketing: channels[1].id must be a non-empty string");
    let mut def = sample_def();
    def.audiences[0].app_query =
        Some(MarketingAudienceAppQuery { tool: " ".into(), input: None });
    assert_eq!(message_of(def), "marketing: audiences[0].appQuery.tool must be a non-empty string");
}

#[test]
fn unknown_words_are_refused() {
    let mut def = sample_def();
    def.variables[0].var_type = "date".into();
    assert_eq!(
        message_of(def),
        "marketing: variables[0].type must be one of string|number|datetime|boolean|url|currency"
    );
    let mut def = sample_def();
    def.variables[0].source = "crm".into();
    assert_eq!(
        message_of(def),
        "marketing: variables[0].source must be one of customer_hub|app_context|campaign|literal"
    );
    let mut def = sample_def();
    def.actions[0].kind = "call".into();
    assert_eq!(
        message_of(def),
        "marketing: actions[0].kind must be one of url|deep_link|quick_reply|whatsapp_cta|postback"
    );
    let mut def = sample_def();
    def.landing_pages[0].host = "web".into();
    assert_eq!(message_of(def), "marketing: landingPages[0].host must be one of app|platform");
}

#[test]
fn duplicate_ids_are_named() {
    let mut def = sample_def();
    let again = def.audiences[0].clone();
    def.audiences.push(again);
    assert_eq!(message_of(def), "marketing: duplicate audience id \"vip\"");
    let mut def = sample_def();
    let mut again = def.landing_pages[0].clone();
    again.id = " booking ".into();
    def.landing_pages.push(again);
    assert_eq!(message_of(def), "marketing: duplicate landingPage id \"booking\"");
}

#[test]
fn actions_name_a_landing_page() {
    let mut def = sample_def();
    def.actions[0].landing_page_id = Some("shop".into());
    assert_eq!(
        message_of(def),
        "marketing: actions[0].landingPageId \"shop\" does not match any landingPages[].id"
    );
    let mut def = sample_def();
    def.actions[0].landing_page_id = Some("  ".into());
    let reg = validate_marketing_definition(def).unwrap();
    assert_eq!(reg.actions[0].landing_page_id, None);
}

#[test]
fn a_registration_is_trimmed_and_valid_again() {
    let mut def = sample_def();
    def.audiences[0].id = " vip ".into();
    def.audiences[0].description = Some("   ".into());
    def.channels[0].provider = Some(" meta ".into());
    let reg = validate_marketing_definition(def).unwrap();
    assert_eq!(reg.audiences[0].id, "vip");
    assert_eq!(reg.audiences[0].description, None);
    assert_eq!(reg.channels[0].provider.as_deref(), Some("meta"));
    let again = validate_marketing_definition(MarketingDefinition {
        version: Some(reg.version),
        audiences: reg.audiences.clone(),
        variables: reg.variables.clone(),
        actions: reg.actions.clone(),
        landing_pages: reg.landing_pages.clone(),
        channels: reg.channels.clone(),
    })
    .unwrap();
    assert_eq!(again, reg);
}

#[test]
fn an_accepted_text_is_accepted_again() {
    let once = require_non_empty("  VIP ", "a").unwrap();
    assert_eq!(once, "VIP");
    assert_eq!(require_non_empty(&once, "b").unwrap(), once);
    let refused = require_non_empty(" ", "x.y").unwrap_err();
    assert_eq!(refused.message(), "marketing: x.y must be a non-empty string");
}

#[test]
fn definitions_and_registrations_as_json() {
    assert_eq!(MarketingDefinition::default().to_json(), JsonValue::empty_object());
    let mut def = sample_def();
    def.variables.clear();
    let wire = def.to_json();
    assert_eq!(wire.get("version"), Some(&JsonValue::Number("1".into())));
    assert!(wire.get("variables").is_none());
    assert_eq!(at(wire.get("landingPages").unwrap(), 0).text("path"), Some("/booking"));
    let wire = validate_marketing_definition(def).unwrap().to_json();
    assert_eq!(wire.get("variables"), Some(&JsonValue::Array(vec![])));
    assert_eq!(at(wire.get("actions").unwrap(), 0).text("landingPageId"), Some("booking"));
}
