//! Security findings as plain data, and their summarization.
//!
//! A finding arrives as a deeply optional tree; every field the library
//! reads is a plain value.  Deserialization of the upstream event schema
//! is a collaborator concern: a driver parses the event and hands the
//! library these values.

use vstd::prelude::*;
use vstd::string::StringExecFns;

use crate::text::{after_last_slash, after_last_slash_spec, str_eq};

verus! {

/// The event detail: the findings it carries.
#[derive(Debug)]
pub struct Detail {
    pub findings: Option<Vec<Finding>>,
}

/// One security finding.
#[derive(Debug)]
pub struct Finding {
    pub activity_id: Option<i32>,
    pub activity_name: Option<String>,
    pub category_name: Option<String>,
    pub category_uid: Option<i32>,
    pub class_name: Option<String>,
    pub class_uid: Option<i32>,
    pub cloud: Option<Cloud>,
    pub count: Option<i32>,
    pub evidences: Option<Vec<Evidence>>,
    pub finding_info: Option<FindingInfo>,
    pub metadata: Option<Metadata>,
    pub osint: Option<Vec<Osint>>,
    pub remediation: Option<Remediation>,
    pub resources: Option<Vec<Resource>>,
    pub severity: Option<String>,
    pub severity_id: Option<i32>,
    pub status: Option<String>,
    pub status_id: Option<i32>,
    pub time: Option<i64>,
    pub time_dt: Option<String>,
    pub kind_name: Option<String>,
    pub type_uid: Option<i32>,
    pub vendor_attributes: Option<VendorAttributes>,
}

#[derive(Debug)]
pub struct Cloud {
    pub account: Option<Account>,
    pub cloud_partition: Option<String>,
    pub provider: Option<String>,
    pub region: Option<String>,
}

#[derive(Debug)]
pub struct Account {
    pub account_type: Option<String>,
    pub type_id: Option<i32>,
    pub uid: Option<String>,
}

#[derive(Debug)]
pub struct Evidence {
    pub connection_info: Option<ConnectionInfo>,
    pub data: Option<EvidenceData>,
    pub query: Option<Query>,
}

#[derive(Debug)]
pub struct ConnectionInfo {
    pub direction: Option<String>,
    pub direction_id: Option<i32>,
    pub protocol_name: Option<String>,
}

#[derive(Debug)]
pub struct EvidenceData {
    pub blocked: Option<bool>,
    pub domain: Option<String>,
    pub domain_with_suffix: Option<String>,
    pub protocol: Option<String>,
    pub vpc_owner_account_id: Option<String>,
}

#[derive(Debug)]
pub struct Query {
    pub hostname: Option<String>,
}

#[derive(Debug)]
pub struct FindingInfo {
    pub analytic: Option<Analytic>,
    pub created_time: Option<i64>,
    pub created_time_dt: Option<String>,
    pub desc: Option<String>,
    pub first_seen_time: Option<i64>,
    pub first_seen_time_dt: Option<String>,
    pub last_seen_time: Option<i64>,
    pub last_seen_time_dt: Option<String>,
    pub modified_time: Option<i64>,
    pub modified_time_dt: Option<String>,
    pub product: Option<Product>,
    pub title: Option<String>,
    pub types: Option<Vec<String>>,
    pub uid: Option<String>,
    pub uid_alt: Option<String>,
}

#[derive(Debug)]
pub struct Analytic {
    pub analytic_type: Option<String>,
    pub type_id: Option<i32>,
    pub uid: Option<String>,
}

#[derive(Debug)]
pub struct Product {
    pub uid: Option<String>,
}

#[derive(Debug)]
pub struct Metadata {
    pub extensions: Option<Vec<Extension>>,
    pub product: Option<MetadataProduct>,
    pub profiles: Option<Vec<String>>,
    pub uid: Option<String>,
    pub version: Option<String>,
}

#[derive(Debug)]
pub struct Extension {
    pub name: Option<String>,
    pub uid: Option<String>,
    pub version: Option<String>,
}

#[derive(Debug)]
pub struct MetadataProduct {
    pub feature: Option<Feature>,
    pub name: Option<String>,
    pub uid: Option<String>,
    pub vendor_name: Option<String>,
}

#[derive(Debug)]
pub struct Feature {
    pub name: Option<String>,
}

#[derive(Debug)]
pub struct Osint {
    pub name: Option<String>,
    pub osint_type: Option<String>,
    pub type_id: Option<i32>,
    pub value: Option<String>,
}

#[derive(Debug)]
pub struct Remediation {
    pub desc: Option<String>,
    pub references: Option<Vec<String>>,
}

#[derive(Debug)]
pub struct Resource {
    pub cloud_partition: Option<String>,
    pub device: Option<Device>,
    pub owner: Option<Owner>,
    pub region: Option<String>,
    pub tags: Option<Vec<Tag>>,
    pub resource_type: Option<String>,
    pub uid: Option<String>,
    pub zone: Option<String>,
}

#[derive(Debug)]
pub struct Device {
    pub image: Option<Image>,
    pub instance_profile: Option<InstanceProfile>,
    pub launch_time: Option<i64>,
    pub launch_time_dt: Option<String>,
    pub model: Option<String>,
    pub network_interfaces: Option<Vec<NetworkInterface>>,
    pub device_type: Option<String>,
    pub type_id: Option<i32>,
    pub uid: Option<String>,
}

#[derive(Debug)]
pub struct Image {
    pub uid: Option<String>,
}

#[derive(Debug)]
pub struct InstanceProfile {
    pub uid: Option<String>,
    pub uid_alt: Option<String>,
}

#[derive(Debug)]
pub struct NetworkInterface {
    pub ip: Option<String>,
    pub security_groups: Option<Vec<SecurityGroup>>,
    pub uid: Option<String>,
}

#[derive(Debug)]
pub struct SecurityGroup {
    pub name: Option<String>,
    pub uid: Option<String>,
}

#[derive(Debug)]
pub struct Owner {
    pub account: Option<Account>,
}

#[derive(Debug)]
pub struct Tag {
    pub name: Option<String>,
    pub value: Option<String>,
}

#[derive(Debug)]
pub struct VendorAttributes {
    pub severity: Option<String>,
    pub severity_id: Option<i32>,
}

/// The flat summary a finding is reported as.
#[derive(Debug)]
pub struct FindingSummary {
    pub title: String,
    pub region: String,
    pub account: String,
    pub product_name: String,
    pub product_aws: String,
    pub resource_id: String,
    pub severity: String,
    pub web_rule: String,
    pub button_text: String,
    pub description: String,
    pub remediation: String,
}

/// The finding's title, or its placeholder.
pub open spec fn title_of(f: Finding) -> Seq<char> {
    match f.finding_info {
        Some(fi) => match fi.title {
            Some(t) => t@,
            None => "No title"@,
        },
        None => "No title"@,
    }
}

/// The finding's region, or its placeholder.
pub open spec fn region_of(f: Finding) -> Seq<char> {
    match f.cloud {
        Some(c) => match c.region {
            Some(r) => r@,
            None => "unknown-region"@,
        },
        None => "unknown-region"@,
    }
}

/// The finding's account id, or its placeholder.
pub open spec fn account_of(f: Finding) -> Seq<char> {
    match f.cloud {
        Some(c) => match c.account {
            Some(a) => match a.uid {
                Some(u) => u@,
                None => "unknown-account"@,
            },
            None => "unknown-account"@,
        },
        None => "unknown-account"@,
    }
}

/// The finding's product name, or its placeholder.
pub open spec fn product_name_of(f: Finding) -> Seq<char> {
    match f.metadata {
        Some(m) => match m.product {
            Some(p) => match p.name {
                Some(n) => n@,
                None => "Unknown Product"@,
            },
            None => "Unknown Product"@,
        },
        None => "Unknown Product"@,
    }
}

/// The finding's product identifier, empty when absent.
pub open spec fn product_arn_of(f: Finding) -> Seq<char> {
    match f.metadata {
        Some(m) => match m.product {
            Some(p) => match p.uid {
                Some(u) => u@,
                None => Seq::empty(),
            },
            None => Seq::empty(),
        },
        None => Seq::empty(),
    }
}

/// The short product tag: the part of the product identifier after its
/// last slash.
pub open spec fn product_aws_of(f: Finding) -> Seq<char> {
    after_last_slash_spec(product_arn_of(f))
}

/// The first resource's id, or its placeholder.
pub open spec fn resource_id_of(f: Finding) -> Seq<char> {
    match f.resources {
        Some(rs) => {
            if rs@.len() > 0 {
                match rs@[0].uid {
                    Some(u) => u@,
                    None => "unknown-resource"@,
                }
            } else {
                "unknown-resource"@
            }
        },
        None => "unknown-resource"@,
    }
}

/// The finding's description, empty when absent.
pub open spec fn description_of(f: Finding) -> Seq<char> {
    match f.finding_info {
        Some(fi) => match fi.desc {
            Some(d) => d@,
            None => Seq::empty(),
        },
        None => Seq::empty(),
    }
}

/// The first remediation reference, or its placeholder.
pub open spec fn remediation_of(f: Finding) -> Seq<char> {
    match f.remediation {
        Some(r) => match r.references {
            Some(refs) => {
                if refs@.len() > 0 {
                    refs@[0]@
                } else {
                    "no_remediation"@
                }
            },
            None => "no_remediation"@,
        },
        None => "no_remediation"@,
    }
}

/// The finding's severity, or its placeholder.
pub open spec fn severity_of(f: Finding) -> Seq<char> {
    match f.severity {
        Some(s) => s@,
        None => "Unknown"@,
    }
}

/// The console link a summary points at.
pub open spec fn web_rule_of(f: Finding) -> Seq<char> {
    "https://"@ + region_of(f) + ".console.aws.amazon.com/"@ + product_aws_of(f) + "/"@
}

impl FindingSummary {
    /// Summarizes a finding: each field is the finding's value where
    /// present and a fixed placeholder where not; the product tag is the
    /// product identifier's last path segment; the console link is built
    /// from region and product tag; the button text repeats the product
    /// name.
    pub fn from_finding(finding: &Finding) -> (s: Self)
        ensures
            s.title@ == title_of(*finding),
            s.region@ == region_of(*finding),
            s.account@ == account_of(*finding),
            s.product_name@ == product_name_of(*finding),
            s.product_aws@ == product_aws_of(*finding),
            s.resource_id@ == resource_id_of(*finding),
            s.severity@ == severity_of(*finding),
            s.web_rule@ == web_rule_of(*finding),
            s.button_text@ == product_name_of(*finding),
            s.description@ == description_of(*finding),
            s.remediation@ == remediation_of(*finding),
    {
        let title: String = match &finding.finding_info {
            Some(fi) => match &fi.title {
                Some(t) => t.clone(),
                None => String::from_str("No title"),
            },
            None => String::from_str("No title"),
        };
        let region: String = match &finding.cloud {
            Some(c) => match &c.region {
                Some(r) => r.clone(),
                None => String::from_str("unknown-region"),
            },
            None => String::from_str("unknown-region"),
        };
        let account: String = match &finding.cloud {
            Some(c) => match &c.account {
                Some(a) => match &a.uid {
                    Some(u) => u.clone(),
                    None => String::from_str("unknown-account"),
                },
                None => String::from_str("unknown-account"),
            },
            None => String::from_str("unknown-account"),
        };
        let product_name: String = match &finding.metadata {
            Some(m) => match &m.product {
                Some(p) => match &p.name {
                    Some(n) => n.clone(),
                    None => String::from_str("Unknown Product"),
                },
                None => String::from_str("Unknown Product"),
            },
            None => String::from_str("Unknown Product"),
        };
        let product_arn: String = match &finding.metadata {
            Some(m) => match &m.product {
                Some(p) => match &p.uid {
                    Some(u) => u.clone(),
                    None => String::new(),
                },
                None => String::new(),
            },
            None => String::new(),
        };
        let product_aws: String = after_last_slash(product_arn.as_str()).to_owned();
        let resource_id: String = match &finding.resources {
            Some(rs) => {
                if rs.len() > 0 {
                    match &rs[0].uid {
                        Some(u) => u.clone(),
                        None => String::from_str("unknown-resource"),
                    }
                } else {
                    String::from_str("unknown-resource")
                }
            },
            None => String::from_str("unknown-resource"),
        };
        let description: String = match &finding.finding_info {
            Some(fi) => match &fi.desc {
                Some(d) => d.clone(),
                None => String::new(),
            },
            None => String::new(),
        };
        let remediation: String = match &finding.remediation {
            Some(r) => match &r.references {
                Some(refs) => {
                    if refs.len() > 0 {
                        refs[0].clone()
                    } else {
                        String::from_str("no_remediation")
                    }
                },
                None => String::from_str("no_remediation"),
            },
            None => String::from_str("no_remediation"),
        };
        let severity: String = match &finding.severity {
            Some(s) => s.clone(),
            None => String::from_str("Unknown"),
        };
        let mut web_rule: String = String::from_str("https://");
        web_rule.append(region.as_str());
        web_rule.append(".console.aws.amazon.com/");
        web_rule.append(product_aws.as_str());
        web_rule.append("/");
        let button_text: String = product_name.clone();
        FindingSummary {
            title,
            region,
            account,
            product_name,
            product_aws,
            resource_id,
            severity,
            web_rule,
            button_text,
            description,
            remediation,
        }
    }
}

/// A severity on which urgent handling is triggered.
pub fn is_high_severity(severity: &str) -> (r: bool)
    ensures
        r == (severity@ == "High"@ || severity@ == "Critical"@),
{
    str_eq(severity, "High") || str_eq(severity, "Critical")
}

/// The log lines a resource reports: its type, its id, and its device's
/// instance id, each when present.
pub open spec fn resource_log_spec(r: Resource) -> Seq<Seq<char>> {
    (match r.resource_type {
        Some(t) => seq!["  Resource Type: "@ + t@],
        None => Seq::empty(),
    }) + (match r.uid {
        Some(u) => seq!["  Resource ID: "@ + u@],
        None => Seq::empty(),
    }) + (match r.device {
        Some(d) => match d.uid {
            Some(i) => seq!["  Instance: "@ + i@],
            None => Seq::empty(),
        },
        None => Seq::empty(),
    })
}

/// Renders a resource's details as log lines.
pub fn log_resource_details(resource: &Resource) -> (lines: Vec<String>)
    ensures
        lines@.map_values(|x: String| x@) == resource_log_spec(*resource),
{
    let mut lines: Vec<String> = Vec::new();
    match &resource.resource_type {
        Some(t) => {
            let mut l = String::from_str("  Resource Type: ");
            l.append(t.as_str());
            lines.push(l);
        },
        None => {},
    }
    match &resource.uid {
        Some(u) => {
            let mut l = String::from_str("  Resource ID: ");
            l.append(u.as_str());
            lines.push(l);
        },
        None => {},
    }
    match &resource.device {
        Some(d) => match &d.uid {
            Some(i) => {
                let mut l = String::from_str("  Instance: ");
                l.append(i.as_str());
                lines.push(l);
            },
            None => {},
        },
        None => {},
    }
    proof {
        assert(lines@.map_values(|x: String| x@) =~= resource_log_spec(*resource));
    }
    lines
}

/// The log lines a piece of evidence reports: the suspicious domain and
/// the protocol, each when present.
pub open spec fn evidence_log_spec(e: Evidence) -> Seq<Seq<char>> {
    match e.data {
        Some(d) => (match d.domain {
            Some(dom) => seq!["  Suspicious domain: "@ + dom@],
            None => Seq::empty(),
        }) + (match d.protocol {
            Some(p) => seq!["  Protocol: "@ + p@],
            None => Seq::empty(),
        }),
        None => Seq::empty(),
    }
}

/// Renders a piece of evidence as log lines.
pub fn log_evidence_details(evidence: &Evidence) -> (lines: Vec<String>)
    ensures
        lines@.map_values(|x: String| x@) == evidence_log_spec(*evidence),
{
    let mut lines: Vec<String> = Vec::new();
    match &evidence.data {
        Some(d) => {
            match &d.domain {
                Some(dom) => {
                    let mut l = String::from_str("  Suspicious domain: ");
                    l.append(dom.as_str());
                    lines.push(l);
                },
                None => {},
            }
            match &d.protocol {
                Some(p) => {
                    let mut l = String::from_str("  Protocol: ");
                    l.append(p.as_str());
                    lines.push(l);
                },
                None => {},
            }
        },
        None => {},
    }
    proof {
        assert(lines@.map_values(|x: String| x@) =~= evidence_log_spec(*evidence));
    }
    lines
}

} // verus!
