use assistant_core::plans::{
    can_edit_credentials, checkout_route, next_discount_tier, next_sub_tier, plan_offer, quota,
    quota_is_daily, Offer, Plan,
};

#[test]
fn plans_name_their_tier_and_checkout_type() {
    assert_eq!(Plan::Basic.tier(), "tier 1");
    assert_eq!(Plan::Escape.tier(), "tier 2");
    assert_eq!(Plan::Basic.subscription_type(), "hard_mode");
    assert_eq!(Plan::Escape.subscription_type(), "world");
}

#[test]
fn visitor_is_asked_to_register() {
    for plan in [Plan::Basic, Plan::Escape] {
        assert_eq!(plan_offer(plan, false, false, None), Offer::GetStarted);
        assert_eq!(plan_offer(plan, false, true, Some("tier 2")), Offer::GetStarted);
    }
}

#[test]
fn unverified_user_is_asked_to_verify() {
    for plan in [Plan::Basic, Plan::Escape] {
        assert_eq!(plan_offer(plan, true, false, None), Offer::VerifyFirst);
        assert_eq!(plan_offer(plan, true, false, Some("tier 1")), Offer::VerifyFirst);
    }
}

#[test]
fn verified_user_is_offered_the_plans_they_lack() {
    assert_eq!(plan_offer(Plan::Basic, true, true, None), Offer::Checkout);
    assert_eq!(plan_offer(Plan::Escape, true, true, None), Offer::Checkout);
    assert_eq!(plan_offer(Plan::Basic, true, true, Some("tier 1")), Offer::CurrentPlan);
    assert_eq!(plan_offer(Plan::Escape, true, true, Some("tier 1")), Offer::Checkout);
    assert_eq!(plan_offer(Plan::Basic, true, true, Some("tier 2")), Offer::Checkout);
    assert_eq!(plan_offer(Plan::Escape, true, true, Some("tier 2")), Offer::CurrentPlan);
    assert_eq!(plan_offer(Plan::Basic, true, true, Some("tier 0")), Offer::Checkout);
}

#[test]
fn checkout_routes() {
    assert_eq!(checkout_route("hard_mode"), "/api/stripe/hard-mode-subscription-checkout/");
    assert_eq!(checkout_route("world"), "/api/stripe/subscription-checkout/");
    assert_eq!(checkout_route(""), "/api/stripe/subscription-checkout/");
    assert_eq!(checkout_route(Plan::Basic.subscription_type()), "/api/stripe/hard-mode-subscription-checkout/");
}

#[test]
fn only_signed_in_tier_two_edits_credentials() {
    assert!(can_edit_credentials(true, Some("tier 2")));
    assert!(!can_edit_credentials(false, Some("tier 2")));
    assert!(!can_edit_credentials(true, Some("tier 1")));
    assert!(!can_edit_credentials(true, None));
}

#[test]
fn quotas_by_country() {
    assert_eq!(quota("US", Plan::Basic), 10);
    assert_eq!(quota("US", Plan::Escape), 15);
    for country in ["FI", "UK", "AU"] {
        assert_eq!(quota(country, Plan::Basic), 50);
        assert_eq!(quota(country, Plan::Escape), 100);
        assert!(!quota_is_daily(country));
    }
    assert_eq!(quota("SE", Plan::Basic), 0);
    assert_eq!(quota("us", Plan::Escape), 0);
    assert!(quota_is_daily("US"));
}

#[test]
fn discount_ladder_goes_round() {
    assert_eq!(next_discount_tier(None), "msg");
    assert_eq!(next_discount_tier(Some("msg")), "voice");
    assert_eq!(next_discount_tier(Some("voice")), "full");
    assert_eq!(next_discount_tier(Some("full")), "none");
    assert_eq!(next_discount_tier(Some("none")), "none");
    assert_eq!(next_discount_tier(Some("other")), "none");
}

#[test]
fn subscription_steps_down() {
    assert_eq!(next_sub_tier(None), "tier 2");
    assert_eq!(next_sub_tier(Some("tier 2")), "tier 1");
    assert_eq!(next_sub_tier(Some("tier 1")), "tier 0");
    assert_eq!(next_sub_tier(Some("tier 0")), "tier 0");
    assert_eq!(next_sub_tier(Some("other")), "tier 0");
}
