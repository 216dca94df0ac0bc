use contact_manager::slack::{
    extract_text_from_blocks, icon_url_for_product, include_remediation_block, is_app_mention,
    mention_reply_text, route_event_type, Block, BlockElement, EventRoute, RichTextElement,
};

fn leaf(kind: &str, text: &str) -> RichTextElement {
    RichTextElement {
        element_type: kind.to_string(),
        text: text.to_string(),
    }
}

#[test]
fn message_text_is_trimmed_filtered_and_joined() {
    let blocks = vec![Block {
        elements: vec![BlockElement {
            elements: vec![
                leaf("user", "U123"),
                leaf("text", "  hello "),
                leaf("text", "world  "),
            ],
        }],
    }];
    assert_eq!(extract_text_from_blocks(&blocks), "hello world");
}

#[test]
fn message_text_spans_blocks_in_order() {
    let blocks = vec![
        Block {
            elements: vec![BlockElement {
                elements: vec![leaf("text", "one")],
            }],
        },
        Block {
            elements: vec![BlockElement {
                elements: vec![leaf("text", "two")],
            }],
        },
    ];
    assert_eq!(extract_text_from_blocks(&blocks), "one two");
    assert_eq!(extract_text_from_blocks(&vec![]), "");
}

#[test]
fn events_route_by_type_tag() {
    assert!(matches!(
        route_event_type("url_verification"),
        EventRoute::UrlVerification
    ));
    assert!(matches!(
        route_event_type("event_callback"),
        EventRoute::EventCallback
    ));
    assert!(matches!(route_event_type("whatever"), EventRoute::Unhandled));
    assert!(is_app_mention("app_mention"));
    assert!(!is_app_mention("message"));
}

#[test]
fn mention_replies_echo_the_text() {
    assert_eq!(
        mention_reply_text("hi there"),
        "This is a plain text section block. You said: hi there"
    );
}

#[test]
fn icons_follow_the_product() {
    assert!(icon_url_for_product("Inspector").contains("Amazon-Inspector"));
    assert!(icon_url_for_product("GuardDuty").contains("Guard-Duty"));
    assert!(icon_url_for_product("Config").contains("AWS-Config"));
    assert!(icon_url_for_product("Something Else").contains("Security-Hub"));
}

#[test]
fn remediation_block_only_with_a_reference() {
    assert!(include_remediation_block("https://docs.example/fix"));
    assert!(!include_remediation_block("no_remediation"));
}
