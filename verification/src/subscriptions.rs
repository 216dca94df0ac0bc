//! Decisions around e-mail subscriptions to a notification topic.
//!
//! Listing a topic's subscriptions and subscribing are remote calls a
//! driver performs page by page; the library decides what a page shows
//! and what a subscribe response means.

use vstd::prelude::*;

use crate::text::str_eq;

verus! {

/// Where an e-mail stands with respect to a topic.
#[derive(PartialEq, Eq, Structural, Clone, Copy, Debug)]
pub enum SubscriptionStatus {
    /// Subscribed and confirmed.
    Subscribed,
    /// Subscribed, awaiting the owner's confirmation.
    PendingConfirmation,
    /// Not subscribed at all.
    NotSubscribed,
}

/// One subscription of a topic, as plain values.
#[derive(Debug)]
pub struct TopicSubscription {
    pub endpoint: Option<String>,
    pub protocol: Option<String>,
    pub subscription_arn: Option<String>,
}

/// The subscription is this e-mail's: endpoint and protocol match, and
/// an identifier is present to read the status from.
pub open spec fn sub_matches(s: TopicSubscription, email: Seq<char>) -> bool {
    &&& s.endpoint matches Some(e) && e@ == email
    &&& s.protocol matches Some(p) && p@ == "email"@
    &&& s.subscription_arn is Some
}

/// The status a matching subscription's identifier shows: the pending
/// marker, or a real identifier meaning confirmed.
pub open spec fn status_of_sub(s: TopicSubscription) -> SubscriptionStatus {
    match s.subscription_arn {
        Some(arn) => {
            if arn@ == "PendingConfirmation"@ {
                SubscriptionStatus::PendingConfirmation
            } else {
                SubscriptionStatus::Subscribed
            }
        },
        None => SubscriptionStatus::NotSubscribed,
    }
}

/// The result of scanning a page from position `i` on: the first
/// subscription of this e-mail decides.
pub open spec fn find_status_from(
    subs: Seq<TopicSubscription>,
    email: Seq<char>,
    i: int,
) -> Option<SubscriptionStatus>
    decreases subs.len() - i,
{
    if i >= subs.len() {
        None
    } else if sub_matches(subs[i], email) {
        Some(status_of_sub(subs[i]))
    } else {
        find_status_from(subs, email, i + 1)
    }
}

/// Scans one page of a topic's subscriptions for the e-mail: the first
/// matching entry decides between confirmed and pending; `None` means
/// the page shows nothing and the scan moves to the next page.
pub fn find_email_subscription(subs: &Vec<TopicSubscription>, email: &str) -> (r: Option<
    SubscriptionStatus,
>)
    ensures
        r == find_status_from(subs@, email@, 0),
{
    let mut i: usize = 0;
    while i < subs.len()
        invariant
            i <= subs@.len(),
            find_status_from(subs@, email@, 0) == find_status_from(subs@, email@, i as int),
        decreases subs@.len() - i,
    {
        let s = &subs[i];
        let endpoint_matches = match &s.endpoint {
            Some(e) => str_eq(e.as_str(), email),
            None => false,
        };
        let protocol_matches = match &s.protocol {
            Some(p) => str_eq(p.as_str(), "email"),
            None => false,
        };
        if endpoint_matches && protocol_matches {
            match &s.subscription_arn {
                Some(arn) => {
                    if str_eq(arn.as_str(), "PendingConfirmation") {
                        return Some(SubscriptionStatus::PendingConfirmation);
                    } else {
                        return Some(SubscriptionStatus::Subscribed);
                    }
                },
                None => {},
            }
        }
        i = i + 1;
    }
    None
}

/// Reads a subscribe response's identifier: absent or pending means the
/// owner must still confirm, anything else means subscribed.
pub fn status_after_subscribe(subscription_arn: &Option<String>) -> (r: SubscriptionStatus)
    ensures
        r is PendingConfirmation <==> (subscription_arn is None || (subscription_arn matches Some(
            a,
        ) && a@ == "PendingConfirmation"@)),
        r is Subscribed <==> (subscription_arn matches Some(a) && a@ != "PendingConfirmation"@),
{
    match subscription_arn {
        Some(arn) => {
            if str_eq(arn.as_str(), "PendingConfirmation") {
                SubscriptionStatus::PendingConfirmation
            } else {
                SubscriptionStatus::Subscribed
            }
        },
        None => SubscriptionStatus::PendingConfirmation,
    }
}

} // verus!
