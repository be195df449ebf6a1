use vstd::prelude::*;

verus! {

/// Accounts whose plan ran out before this moment, in seconds since 1970,
/// may buy credits without a subscription.
pub const CREDIT_PURCHASE_CUTOFF: i32 = 1747170000;

/// Whether a user may buy credits: a subscriber may, and so may a user
/// whose plan's expiry is known and lies before the cutoff.
pub open spec fn credits_open_to(has_tier: bool, time_to_live: Option<i32>) -> bool {
    has_tier || (time_to_live matches Some(t) && t < CREDIT_PURCHASE_CUTOFF)
}

/// Whether a user may buy credits.
pub fn may_buy_credits(has_tier: bool, time_to_live: Option<i32>) -> (r: bool)
    ensures
        r == credits_open_to(has_tier, time_to_live),
{
    match time_to_live {
        Some(t) => has_tier || t < CREDIT_PURCHASE_CUTOFF,
        None => has_tier,
    }
}

/// Whether a user is offered automatic top-up: one who may buy credits and
/// has a payment method on file.
pub fn may_top_up_automatically(
    has_tier: bool,
    time_to_live: Option<i32>,
    has_payment_method: bool,
) -> (r: bool)
    ensures
        r == (credits_open_to(has_tier, time_to_live) && has_payment_method),
{
    may_buy_credits(has_tier, time_to_live) && has_payment_method
}

/// Whether a user is offered the payments portal: one with a payment method
/// on file or with a subscription.
pub fn may_manage_payments(has_payment_method: bool, has_tier: bool) -> (r: bool)
    ensures
        r == (has_payment_method || has_tier),
{
    has_payment_method || has_tier
}

} // verus!
