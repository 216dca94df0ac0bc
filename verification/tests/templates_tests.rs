use contact_manager::subscriptions::{
    find_email_subscription, status_after_subscribe, SubscriptionStatus, TopicSubscription,
};
use contact_manager::templates::{
    template_matches, to_pascal_case, ActionValue, ResourceValue, ScpPolicy, ScpTemplate,
    Statement, TemplateLoader,
};
use contact_manager::text::{join_with_space, str_eq, usize_to_string};

fn sample_policy(sid: Option<String>) -> ScpPolicy {
    ScpPolicy {
        version: "2012-10-17".to_string(),
        statement: vec![Statement {
            effect: "Deny".to_string(),
            action: Some(ActionValue::Single("s3:*".to_string())),
            not_action: None,
            resource: ResourceValue::Single("*".to_string()),
            condition: None,
            sid,
        }],
    }
}

#[test]
fn format_name_capitalizes_and_joins_words() {
    let loader = TemplateLoader::new("./templates".to_string());
    assert_eq!(loader.format_name("deny-s3_public"), "Deny S3 Public");
    assert_eq!(loader.format_name("restrict regions"), "Restrict Regions");
    assert_eq!(loader.format_name("__a--b__"), "A B");
    assert_eq!(loader.format_name(""), "");
}

#[test]
fn description_comes_from_the_first_sid() {
    let loader = TemplateLoader::new(".".to_string());
    let with_sid = sample_policy(Some("DenyAllS3".to_string()));
    assert_eq!(loader.extract_description(&with_sid), "DenyAllS3");
    let without = sample_policy(None);
    assert_eq!(loader.extract_description(&without), "Sin descripción");
}

#[test]
fn pascal_case_normalizes_custom_names() {
    assert_eq!(to_pascal_case("hello world"), "HelloWorld");
    assert_eq!(to_pascal_case("deny-s3-access"), "DenyS3Access");
    assert_eq!(to_pascal_case("MY_POLICY"), "MyPolicy");
    assert_eq!(to_pascal_case("already Pascal"), "AlreadyPascal");
    assert_eq!(to_pascal_case("  "), "");
}

#[test]
fn search_matches_name_or_category_case_insensitively() {
    let template = ScpTemplate {
        name: "Deny S3 Public".to_string(),
        description: "d".to_string(),
        category: "storage".to_string(),
        policy: sample_policy(None),
        file_path: "p".to_string(),
    };
    assert!(template_matches(&template, "s3"));
    assert!(template_matches(&template, "STORAGE"));
    assert!(!template_matches(&template, "network"));
}

#[test]
fn subscription_page_scan_finds_the_first_match() {
    let subs = vec![
        TopicSubscription {
            endpoint: Some("other@example.com".to_string()),
            protocol: Some("email".to_string()),
            subscription_arn: Some("arn:aws:sns:sub/1".to_string()),
        },
        TopicSubscription {
            endpoint: Some("me@example.com".to_string()),
            protocol: Some("email".to_string()),
            subscription_arn: Some("PendingConfirmation".to_string()),
        },
    ];
    assert_eq!(
        find_email_subscription(&subs, "me@example.com"),
        Some(SubscriptionStatus::PendingConfirmation)
    );
    assert_eq!(
        find_email_subscription(&subs, "other@example.com"),
        Some(SubscriptionStatus::Subscribed)
    );
    assert_eq!(find_email_subscription(&subs, "nobody@example.com"), None);
}

#[test]
fn non_email_protocol_does_not_match() {
    let subs = vec![TopicSubscription {
        endpoint: Some("me@example.com".to_string()),
        protocol: Some("sms".to_string()),
        subscription_arn: Some("arn:aws:sns:sub/9".to_string()),
    }];
    assert_eq!(find_email_subscription(&subs, "me@example.com"), None);
}

#[test]
fn subscribe_response_status() {
    assert_eq!(
        status_after_subscribe(&None),
        SubscriptionStatus::PendingConfirmation
    );
    assert_eq!(
        status_after_subscribe(&Some("PendingConfirmation".to_string())),
        SubscriptionStatus::PendingConfirmation
    );
    assert_eq!(
        status_after_subscribe(&Some("arn:aws:sns:sub/2".to_string())),
        SubscriptionStatus::Subscribed
    );
}

#[test]
fn text_helpers_behave() {
    assert!(str_eq("abc", "abc"));
    assert!(!str_eq("abc", "abd"));
    assert_eq!(usize_to_string(0), "0");
    assert_eq!(usize_to_string(7), "7");
    assert_eq!(usize_to_string(42), "42");
    assert_eq!(usize_to_string(1000), "1000");
    let parts = vec!["a".to_string(), "b".to_string(), "c".to_string()];
    assert_eq!(join_with_space(&parts), "a b c");
    assert_eq!(join_with_space(&vec![]), "");
}
