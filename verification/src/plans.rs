use vstd::prelude::*;
use crate::text::{opt_text, same_text};

verus! {

/// The two subscriptions on offer.
#[derive(Clone, Copy, Debug, PartialEq, Eq, Structural)]
pub enum Plan {
    /// Calls and messages with search and weather: tier 1.
    Basic,
    /// Everything: tier 2.
    Escape,
}

/// What the pricing page offers a visitor for one plan.
#[derive(Clone, Copy, Debug, PartialEq, Eq, Structural)]
pub enum Offer {
    /// Not signed in: remember the plan and go to registration.
    GetStarted,
    /// Signed in but not verified: nothing can be bought yet.
    VerifyFirst,
    /// Signed in and verified, on no plan or on another one: go to checkout.
    Checkout,
    /// Already on this plan.
    CurrentPlan,
}

impl Plan {
    /// The subscription tier that the plan grants.
    pub open spec fn tier_of(self) -> Seq<char> {
        match self {
            Plan::Basic => "tier 1"@,
            Plan::Escape => "tier 2"@,
        }
    }

    /// The name by which checkout knows the plan.
    pub open spec fn subscription_type_of(self) -> Seq<char> {
        match self {
            Plan::Basic => "hard_mode"@,
            Plan::Escape => "world"@,
        }
    }

    /// The subscription tier that the plan grants.
    pub fn tier(&self) -> (t: &'static str)
        ensures
            t@ == self.tier_of(),
    {
        match self {
            Plan::Basic => "tier 1",
            Plan::Escape => "tier 2",
        }
    }

    /// The name by which checkout knows the plan.
    pub fn subscription_type(&self) -> (t: &'static str)
        ensures
            t@ == self.subscription_type_of(),
    {
        match self {
            Plan::Basic => "hard_mode",
            Plan::Escape => "world",
        }
    }
}

/// What a visitor is offered for `plan`.
pub open spec fn offer_for(
    plan: Plan,
    is_logged_in: bool,
    verified: bool,
    sub_tier: Option<Seq<char>>,
) -> Offer {
    if !is_logged_in {
        Offer::GetStarted
    } else if !verified {
        Offer::VerifyFirst
    } else if sub_tier == Some(plan.tier_of()) {
        Offer::CurrentPlan
    } else {
        Offer::Checkout
    }
}

/// What the pricing page offers a visitor for `plan`.
pub fn plan_offer(plan: Plan, is_logged_in: bool, verified: bool, sub_tier: Option<&str>) -> (offer:
    Offer)
    ensures
        offer == offer_for(plan, is_logged_in, verified, opt_text(sub_tier)),
{
    if !is_logged_in {
        Offer::GetStarted
    } else if !verified {
        Offer::VerifyFirst
    } else {
        match sub_tier {
            Some(tier) => if same_text(tier, plan.tier()) {
                Offer::CurrentPlan
            } else {
                Offer::Checkout
            },
            None => Offer::Checkout,
        }
    }
}

/// The checkout route of a subscription type, to which the user's id is
/// appended.
pub open spec fn checkout_route_of(subscription_type: Seq<char>) -> Seq<char> {
    if subscription_type == "hard_mode"@ {
        "/api/stripe/hard-mode-subscription-checkout/"@
    } else {
        "/api/stripe/subscription-checkout/"@
    }
}

/// The checkout route of a subscription type, to which the user's id is
/// appended.
pub fn checkout_route(subscription_type: &str) -> (route: &'static str)
    ensures
        route@ == checkout_route_of(subscription_type@),
{
    if same_text(subscription_type, "hard_mode") {
        "/api/stripe/hard-mode-subscription-checkout/"
    } else {
        "/api/stripe/subscription-checkout/"
    }
}

/// Whether a visitor may edit their own telephony credentials: only a
/// signed-in tier 2 subscriber may.
pub fn can_edit_credentials(is_logged_in: bool, sub_tier: Option<&str>) -> (r: bool)
    ensures
        r == (is_logged_in && opt_text(sub_tier) == Some("tier 2"@)),
{
    match sub_tier {
        Some(tier) => is_logged_in && same_text(tier, "tier 2"),
        None => false,
    }
}

/// Whether a country's message quota is counted by the day; elsewhere it is
/// counted by the month.
pub fn quota_is_daily(country: &str) -> (r: bool)
    ensures
        r == (country@ == "US"@),
{
    same_text(country, "US")
}

/// How many messages or minutes a plan includes in a country.
pub open spec fn quota_of(country: Seq<char>, plan: Plan) -> int {
    if country == "US"@ {
        match plan {
            Plan::Basic => 10,
            Plan::Escape => 15,
        }
    } else if country == "FI"@ || country == "UK"@ || country == "AU"@ {
        match plan {
            Plan::Basic => 50,
            Plan::Escape => 100,
        }
    } else {
        0
    }
}

/// How many messages or minutes a plan includes in a country; nothing in a
/// country that the service does not sell in.
pub fn quota(country: &str, plan: Plan) -> (n: i32)
    ensures
        n == quota_of(country@, plan),
{
    if same_text(country, "US") {
        match plan {
            Plan::Basic => 10,
            Plan::Escape => 15,
        }
    } else if same_text(country, "FI") || same_text(country, "UK") || same_text(country, "AU") {
        match plan {
            Plan::Basic => 50,
            Plan::Escape => 100,
        }
    } else {
        0
    }
}

/// The place of a discount tier on the ladder none, msg, voice, full. A
/// user without a discount tier stands on `none`; a name that is none of
/// the four has no place.
pub open spec fn discount_rank(tier: Seq<char>) -> Option<nat> {
    if tier == "none"@ {
        Some(0)
    } else if tier == "msg"@ {
        Some(1)
    } else if tier == "voice"@ {
        Some(2)
    } else if tier == "full"@ {
        Some(3)
    } else {
        None
    }
}

/// The discount tier that an administrator's click moves a user to.
pub open spec fn next_discount_of(current: Option<Seq<char>>) -> Seq<char> {
    match current {
        None => "msg"@,
        Some(t) => if t == "msg"@ {
            "voice"@
        } else if t == "voice"@ {
            "full"@
        } else {
            "none"@
        },
    }
}

/// The discount tier that an administrator's click moves a user to: one
/// rung up, and from the top, or from an unknown tier, back to none.
pub fn next_discount_tier(current: Option<&str>) -> (next: &'static str)
    ensures
        next@ == next_discount_of(opt_text(current)),
{
    match current {
        None => "msg",
        Some(t) => if same_text(t, "msg") {
            "voice"
        } else if same_text(t, "voice") {
            "full"
        } else {
            "none"
        },
    }
}

/// The subscription tier that an administrator's click moves a user to.
pub open spec fn next_tier_of(current: Option<Seq<char>>) -> Seq<char> {
    match current {
        None => "tier 2"@,
        Some(t) => if t == "tier 2"@ {
            "tier 1"@
        } else {
            "tier 0"@
        },
    }
}

/// The subscription tier that an administrator's click moves a user to: a
/// user without one gets tier 2, tier 2 becomes tier 1, and every other
/// tier becomes tier 0.
pub fn next_sub_tier(current: Option<&str>) -> (next: &'static str)
    ensures
        next@ == next_tier_of(opt_text(current)),
{
    match current {
        None => "tier 2",
        Some(t) => if same_text(t, "tier 2") {
            "tier 1"
        } else {
            "tier 0"
        },
    }
}

/// A click moves a user without a discount tier, or on msg or voice, one
/// rung up the ladder, and a user on full back to none.
pub proof fn lemma_discount_ladder(current: Option<Seq<char>>)
    requires
        current is None || current == Some("msg"@) || current == Some("voice"@) || current == Some(
            "full"@,
        ),
    ensures
        discount_rank(next_discount_of(current)) == Some(
            match current {
                None => 1nat,
                Some(t) => ((discount_rank(t)->0 + 1) % 4) as nat,
            },
        ),
{
    reveal_strlit("none");
    reveal_strlit("msg");
    reveal_strlit("voice");
    reveal_strlit("full");
    assert("none"@.len() == 4 && "msg"@.len() == 3 && "voice"@.len() == 5);
    assert("none"@[0] != "full"@[0]);
}

} // verus!
