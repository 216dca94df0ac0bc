//! Decisions of the chat-notification path: routing incoming events,
//! extracting the text of a rich-text message, and choosing what a
//! posted summary carries.
//!
//! The HTTP calls, the JSON envelope and the secret lookup are a
//! driver's work; the library makes the choices.

use vstd::prelude::*;
use vstd::string::StringExecFns;

use crate::text::{join_spaced, join_with_space, str_eq, trim, trim_spec};

verus! {

/// One block of an incoming rich-text message.
#[derive(Debug)]
pub struct Block {
    pub elements: Vec<BlockElement>,
}

/// One element of a block.
#[derive(Debug)]
pub struct BlockElement {
    pub elements: Vec<RichTextElement>,
}

/// One leaf of a rich-text element: its type tag and its text.
#[derive(Debug)]
pub struct RichTextElement {
    pub element_type: String,
    pub text: String,
}

/// The trimmed texts of the text-typed leaves of an element sequence,
/// in order.
pub open spec fn texts_of_rich(es: Seq<RichTextElement>) -> Seq<Seq<char>>
    decreases es.len(),
{
    if es.len() == 0 {
        Seq::empty()
    } else {
        texts_of_rich(es.drop_last()) + (if es.last().element_type@ == "text"@ {
            seq![trim_spec(es.last().text@)]
        } else {
            Seq::empty()
        })
    }
}

/// The trimmed texts under a sequence of block elements.
pub open spec fn texts_of_elements(es: Seq<BlockElement>) -> Seq<Seq<char>>
    decreases es.len(),
{
    if es.len() == 0 {
        Seq::empty()
    } else {
        texts_of_elements(es.drop_last()) + texts_of_rich(es.last().elements@)
    }
}

/// The trimmed texts under a sequence of blocks.
pub open spec fn texts_of_blocks(bs: Seq<Block>) -> Seq<Seq<char>>
    decreases bs.len(),
{
    if bs.len() == 0 {
        Seq::empty()
    } else {
        texts_of_blocks(bs.drop_last()) + texts_of_elements(bs.last().elements@)
    }
}

/// Extracts a message's plain text: every text-typed leaf, trimmed, in
/// order, joined with single spaces.
pub fn extract_text_from_blocks(blocks: &Vec<Block>) -> (r: String)
    ensures
        r@ == join_spaced(texts_of_blocks(blocks@)),
{
    let mut pieces: Vec<String> = Vec::new();
    let mut bi: usize = 0;
    while bi < blocks.len()
        invariant
            bi <= blocks@.len(),
            pieces@.map_values(|x: String| x@) == texts_of_blocks(blocks@.subrange(0, bi as int)),
        decreases blocks@.len() - bi,
    {
        let block = &blocks[bi];
        let mut ei: usize = 0;
        while ei < block.elements.len()
            invariant
                bi < blocks@.len(),
                block == blocks@[bi as int],
                ei <= block.elements@.len(),
                pieces@.map_values(|x: String| x@) == texts_of_blocks(
                    blocks@.subrange(0, bi as int),
                ) + texts_of_elements(block.elements@.subrange(0, ei as int)),
            decreases block.elements@.len() - ei,
        {
            let element = &block.elements[ei];
            let mut ri: usize = 0;
            while ri < element.elements.len()
                invariant
                    bi < blocks@.len(),
                    block == blocks@[bi as int],
                    ei < block.elements@.len(),
                    element == block.elements@[ei as int],
                    ri <= element.elements@.len(),
                    pieces@.map_values(|x: String| x@) == texts_of_blocks(
                        blocks@.subrange(0, bi as int),
                    ) + texts_of_elements(block.elements@.subrange(0, ei as int)) + texts_of_rich(
                        element.elements@.subrange(0, ri as int),
                    ),
                decreases element.elements@.len() - ri,
            {
                let leaf = &element.elements[ri];
                let ghost old_pieces = pieces@;
                if str_eq(leaf.element_type.as_str(), "text") {
                    let piece = trim(leaf.text.as_str());
                    pieces.push(piece.to_owned());
                }
                proof {
                    let sub = element.elements@.subrange(0, ri as int + 1);
                    assert(sub.drop_last() =~= element.elements@.subrange(0, ri as int));
                    assert(sub.last() == element.elements@[ri as int]);
                    if leaf.element_type@ == "text"@ {
                        assert(pieces@.map_values(|x: String| x@) =~= old_pieces.map_values(
                            |x: String| x@,
                        ) + seq![trim_spec(leaf.text@)]);
                    }
                }
                ri = ri + 1;
            }
            proof {
                assert(element.elements@.subrange(0, element.elements@.len() as int) =~= element
                    .elements@);
                let sub = block.elements@.subrange(0, ei as int + 1);
                assert(sub.drop_last() =~= block.elements@.subrange(0, ei as int));
                assert(sub.last() == block.elements@[ei as int]);
            }
            ei = ei + 1;
        }
        proof {
            assert(block.elements@.subrange(0, block.elements@.len() as int) =~= block.elements@);
            let sub = blocks@.subrange(0, bi as int + 1);
            assert(sub.drop_last() =~= blocks@.subrange(0, bi as int));
            assert(sub.last() == blocks@[bi as int]);
        }
        bi = bi + 1;
    }
    proof {
        assert(blocks@.subrange(0, blocks@.len() as int) =~= blocks@);
    }
    join_with_space(&pieces)
}

/// Where an incoming event is routed, by its type tag.
#[derive(PartialEq, Eq, Structural, Clone, Copy, Debug)]
pub enum EventRoute {
    /// The endpoint-verification challenge: echo it back.
    UrlVerification,
    /// A callback carrying an event to handle.
    EventCallback,
    /// Anything else is acknowledged and dropped.
    Unhandled,
}

/// Routes an incoming event by its type tag.
pub fn route_event_type(event_type: &str) -> (r: EventRoute)
    ensures
        r is UrlVerification <==> event_type@ == "url_verification"@,
        r is EventCallback <==> event_type@ == "event_callback"@,
{
    proof {
        reveal_strlit("url_verification");
        reveal_strlit("event_callback");
        assert("url_verification"@.len() == 16 && "event_callback"@.len() == 14);
    }
    if str_eq(event_type, "url_verification") {
        EventRoute::UrlVerification
    } else if str_eq(event_type, "event_callback") {
        EventRoute::EventCallback
    } else {
        EventRoute::Unhandled
    }
}

/// An event that mentions the app and is answered.
pub fn is_app_mention(event_type: &str) -> (r: bool)
    ensures
        r == (event_type@ == "app_mention"@),
{
    str_eq(event_type, "app_mention")
}

/// The text a mention is answered with.
pub fn mention_reply_text(text: &str) -> (r: String)
    ensures
        r@ == "This is a plain text section block. You said: "@ + text@,
{
    let mut r = String::from_str("This is a plain text section block. You said: ");
    r.append(text);
    r
}

/// The icon a product's findings are posted with.
pub open spec fn icon_url_spec(product: Seq<char>) -> Seq<char> {
    if product == "Inspector"@ {
        "https://raw.githubusercontent.com/lep511/security-hub-to-slack/refs/heads/main/image-icons/Arch_Amazon-Inspector_64.png"@
    } else if product == "Macie"@ {
        "https://raw.githubusercontent.com/lep511/security-hub-to-slack/refs/heads/main/image-icons/Arch_Amazon-Macie_64.png"@
    } else if product == "WAF"@ {
        "https://raw.githubusercontent.com/lep511/security-hub-to-slack/refs/heads/main/image-icons/Arch_AWS-WAF_64.png"@
    } else if product == "Shield"@ {
        "https://raw.githubusercontent.com/lep511/security-hub-to-slack/refs/heads/main/image-icons/Arch_AWS-Shield_64.png"@
    } else if product == "GuardDuty"@ {
        "https://raw.githubusercontent.com/lep511/security-hub-to-slack/refs/heads/main/image-icons/Arch_Amazon-Guard-Duty_64.png"@
    } else if product == "Detective"@ {
        "https://raw.githubusercontent.com/lep511/security-hub-to-slack/refs/heads/main/image-icons/Arch_Amazon-Detective_64.png"@
    } else if product == "Config"@ {
        "https://raw.githubusercontent.com/lep511/security-hub-to-slack/refs/heads/main/image-icons/Arch_AWS-Config_64.png"@
    } else if product == "IAM Access Analyzer"@ {
        "https://raw.githubusercontent.com/lep511/security-hub-to-slack/refs/heads/main/image-icons/Arch_AWS-Identity-and-Access-Management_64.png"@
    } else {
        "https://raw.githubusercontent.com/lep511/security-hub-to-slack/refs/heads/main/image-icons/Arch_AWS-Security-Hub_64.png"@
    }
}

/// Chooses the icon a product's findings are posted with.
pub fn icon_url_for_product(product: &str) -> (r: &'static str)
    ensures
        r@ == icon_url_spec(product@),
{
    if str_eq(product, "Inspector") {
        "https://raw.githubusercontent.com/lep511/security-hub-to-slack/refs/heads/main/image-icons/Arch_Amazon-Inspector_64.png"
    } else if str_eq(product, "Macie") {
        "https://raw.githubusercontent.com/lep511/security-hub-to-slack/refs/heads/main/image-icons/Arch_Amazon-Macie_64.png"
    } else if str_eq(product, "WAF") {
        "https://raw.githubusercontent.com/lep511/security-hub-to-slack/refs/heads/main/image-icons/Arch_AWS-WAF_64.png"
    } else if str_eq(product, "Shield") {
        "https://raw.githubusercontent.com/lep511/security-hub-to-slack/refs/heads/main/image-icons/Arch_AWS-Shield_64.png"
    } else if str_eq(product, "GuardDuty") {
        "https://raw.githubusercontent.com/lep511/security-hub-to-slack/refs/heads/main/image-icons/Arch_Amazon-Guard-Duty_64.png"
    } else if str_eq(product, "Detective") {
        "https://raw.githubusercontent.com/lep511/security-hub-to-slack/refs/heads/main/image-icons/Arch_Amazon-Detective_64.png"
    } else if str_eq(product, "Config") {
        "https://raw.githubusercontent.com/lep511/security-hub-to-slack/refs/heads/main/image-icons/Arch_AWS-Config_64.png"
    } else if str_eq(product, "IAM Access Analyzer") {
        "https://raw.githubusercontent.com/lep511/security-hub-to-slack/refs/heads/main/image-icons/Arch_AWS-Identity-and-Access-Management_64.png"
    } else {
        "https://raw.githubusercontent.com/lep511/security-hub-to-slack/refs/heads/main/image-icons/Arch_AWS-Security-Hub_64.png"
    }
}

/// A summary's remediation block is posted only when a remediation
/// reference exists.
pub fn include_remediation_block(remediation: &str) -> (r: bool)
    ensures
        r == (remediation@ != "no_remediation"@),
{
    !str_eq(remediation, "no_remediation")
}

} // verus!
