use vstd::prelude::*;
use vstd::string::*;
use crate::query::{form_pairs, requested_user_id, user_id_of};
use crate::status::Status;
use crate::text::{chars_of, same_text, spells};

verus! {

/// Position of the first `/` in `s`, or the length of `s` when it holds none.
pub open spec fn first_slash(s: Seq<char>) -> int
    decreases s.len(),
{
    if s.len() == 0 || s[0] == '/' {
        0
    } else {
        1 + first_slash(s.drop_first())
    }
}

/// The `n`-th piece of `s` cut at every `/`, counted from zero; `None` when
/// `s` has fewer pieces. An empty string has one piece, the empty one.
pub open spec fn segment(s: Seq<char>, n: nat) -> Option<Seq<char>>
    decreases n,
{
    let k = first_slash(s);
    if n == 0 {
        Some(s.take(k))
    } else if k < s.len() {
        segment(s.skip(k + 1), (n - 1) as nat)
    } else {
        None
    }
}

/// Whether `path` has a tool's place: a third piece that is `call`, and a
/// fourth piece after it. The first two pieces are not looked at.
pub open spec fn names_tool(path: Seq<char>) -> bool {
    segment(path, 2) == Some("call"@) && segment(path, 3) is Some
}

/// Whether `path` has the shape `/api/call/{tool}[/action]`.
pub open spec fn on_call_route(path: Seq<char>) -> bool {
    &&& segment(path, 0) == Some(Seq::<char>::empty())
    &&& segment(path, 1) == Some("api"@)
    &&& names_tool(path)
}

/// The tool that a request path addresses: its fourth piece where it has a
/// tool's place, and the empty string otherwise.
pub open spec fn tool_of(path: Seq<char>) -> Seq<char> {
    if names_tool(path) {
        segment(path, 3)->0
    } else {
        Seq::empty()
    }
}

/// `k` is the first slash of `s` when nothing before it is one and it is
/// either the end of `s` or a slash itself.
pub proof fn lemma_first_slash_is(s: Seq<char>, k: int)
    requires
        0 <= k <= s.len(),
        forall|j: int| 0 <= j < k ==> s[j] != '/',
        k < s.len() ==> s[k] == '/',
    ensures
        first_slash(s) == k,
    decreases s.len(),
{
    if s.len() == 0 || s[0] == '/' {
    } else {
        let t = s.drop_first();
        assert forall|j: int| 0 <= j < k - 1 implies t[j] != '/' by {
            assert(t[j] == s[j + 1]);
        }
        lemma_first_slash_is(t, k - 1);
    }
}

fn find_slash(v: &Vec<char>, from: usize) -> (k: usize)
    requires
        from <= v.len(),
    ensures
        from <= k <= v.len(),
        k == from + first_slash(v@.skip(from as int)),
{
    let mut k: usize = from;
    while k < v.len() && v[k] != '/'
        invariant
            from <= k <= v.len(),
            forall|j: int| from <= j < k ==> v@[j] != '/',
        decreases v.len() - k,
    {
        k = k + 1;
    }
    proof {
        lemma_first_slash_is(v@.skip(from as int), k - from);
    }
    k
}

/// Where the `n`-th piece of `v` starts and ends, if it has one.
fn segment_bounds(v: &Vec<char>, n: usize) -> (r: Option<(usize, usize)>)
    ensures
        match r {
            Some((a, b)) => a <= b <= v.len() && segment(v@, n as nat) == Some(
                v@.subrange(a as int, b as int),
            ),
            None => segment(v@, n as nat) is None,
        },
{
    let mut start: usize = 0;
    let mut i: usize = 0;
    assert(v@.skip(0) == v@);
    loop
        invariant
            i <= n,
            start <= v.len(),
            segment(v@, n as nat) == segment(v@.skip(start as int), (n - i) as nat),
        decreases n - i,
    {
        let k = find_slash(v, start);
        if i == n {
            assert(v@.skip(start as int).take(k - start) == v@.subrange(start as int, k as int));
            return Some((start, k));
        }
        if k >= v.len() {
            return None;
        }
        assert(v@.skip(start as int).skip(k - start + 1) == v@.skip(k + 1));
        start = k + 1;
        i = i + 1;
    }
}

/// The tool that a request path of the shape `/api/call/{tool}[/action]`
/// addresses: the piece after `call`. A path whose third piece is not
/// `call`, or that ends there, addresses no tool, which is the empty string.
pub fn tool_name(path: &str) -> (tool: &str)
    ensures
        tool@ == tool_of(path@),
{
    let v = chars_of(path);
    let third = segment_bounds(&v, 2);
    let fourth = segment_bounds(&v, 3);
    match (third, fourth) {
        (Some((a, b)), Some((c, d))) => {
            if spells(&v, a, b, "call") {
                path.substring_char(c, d)
            } else {
                path.substring_char(0, 0)
            }
        },
        _ => path.substring_char(0, 0),
    }
}

/// The tools that a tier 1 subscription covers.
pub open spec fn tier_one_tool(tool: Seq<char>) -> bool {
    tool == "perplexity"@ || tool == "weather"@ || tool == "assistant"@
}

/// The characters of a stored subscription tier, if the user has one.
pub open spec fn tier_text(sub_tier: Option<String>) -> Option<Seq<char>> {
    match sub_tier {
        Some(t) => Some(t@),
        None => None,
    }
}

/// The access rule. A discount or a tier 2 subscription opens every path;
/// tier 1 opens the paths of its three tools; everything else is closed.
/// `true` means that the request is refused for want of a subscription.
pub open spec fn needs_subscription(
    path: Seq<char>,
    sub_tier: Option<Seq<char>>,
    has_discount: bool,
) -> bool {
    if has_discount || sub_tier == Some("tier 2"@) {
        false
    } else if sub_tier == Some("tier 1"@) {
        !tier_one_tool(tool_of(path))
    } else {
        true
    }
}

/// Whether `tool` is one of the tools that tier 1 covers.
pub fn is_tier_one_tool(tool: &str) -> (r: bool)
    ensures
        r == tier_one_tool(tool@),
{
    same_text(tool, "perplexity") || same_text(tool, "weather") || same_text(tool, "assistant")
}

/// Decides whether a request for `path` is refused because the user's
/// subscription does not cover it.
pub fn requires_subscription(path: &str, sub_tier: Option<String>, has_discount: bool) -> (denied:
    bool)
    ensures
        denied == needs_subscription(path@, tier_text(sub_tier), has_discount),
{
    if has_discount {
        return false;
    }
    match sub_tier {
        Some(tier) => {
            if same_text(tier.as_str(), "tier 2") {
                false
            } else if same_text(tier.as_str(), "tier 1") {
                !is_tier_one_tool(tool_name(path))
            } else {
                true
            }
        },
        None => true,
    }
}

/// A path without a tool's place addresses no tool, and a tier 1 user
/// without a discount is refused on it. Such a path is never of the shape
/// `/api/call/{tool}[/action]`.
pub proof fn lemma_other_paths_closed_to_tier_one(path: Seq<char>)
    requires
        !names_tool(path),
    ensures
        !on_call_route(path),
        tool_of(path) == Seq::<char>::empty(),
        needs_subscription(path, Some("tier 1"@), false),
{
    reveal_strlit("perplexity");
    reveal_strlit("weather");
    reveal_strlit("assistant");
    reveal_strlit("tier 1");
    reveal_strlit("tier 2");
    assert("tier 1"@[5] != "tier 2"@[5]);
    assert(tool_of(path).len() == 0);
}

/// A discount opens every path, whatever the subscription tier.
pub proof fn lemma_discount_grants(path: Seq<char>, sub_tier: Option<Seq<char>>)
    ensures
        !needs_subscription(path, sub_tier, true),
{
}

/// A tier 2 subscription opens every path, with or without a discount.
pub proof fn lemma_tier_two_grants(path: Seq<char>, has_discount: bool)
    ensures
        !needs_subscription(path, Some("tier 2"@), has_discount),
{
}

/// Without a discount, tier 1 opens exactly the paths of its three tools.
pub proof fn lemma_tier_one_grants_its_tools(path: Seq<char>)
    ensures
        !needs_subscription(path, Some("tier 1"@), false) <==> tier_one_tool(tool_of(path)),
{
    reveal_strlit("tier 1");
    reveal_strlit("tier 2");
    assert("tier 1"@[5] != "tier 2"@[5]);
}

/// Without a discount, a user with no subscription, or with any tier other
/// than tier 1 and tier 2, is refused on every path.
pub proof fn lemma_other_tiers_closed(path: Seq<char>, sub_tier: Option<Seq<char>>)
    requires
        sub_tier != Some("tier 1"@),
        sub_tier != Some("tier 2"@),
    ensures
        needs_subscription(path, sub_tier, false),
{
}

/// Why a request was turned away for want of access.
#[derive(Clone, Copy, Debug, PartialEq, Eq, Structural)]
pub enum AccessError {
    /// The query string names no user id, or one that is no 32-bit decimal.
    InvalidUserId,
    /// The store holds no user with the id that the query names.
    UserNotFound,
    /// The store failed while it looked the user up.
    StoreFailure,
    /// The user's subscription does not cover the tool.
    SubscriptionRequired,
}

impl AccessError {
    pub open spec fn status_of(self) -> Status {
        match self {
            AccessError::InvalidUserId => Status::BadRequest,
            AccessError::UserNotFound => Status::NotFound,
            AccessError::StoreFailure => Status::InternalServerError,
            AccessError::SubscriptionRequired => Status::Forbidden,
        }
    }

    pub open spec fn error_of(self) -> Seq<char> {
        match self {
            AccessError::InvalidUserId => "Missing or invalid user_id"@,
            AccessError::UserNotFound => "User not found"@,
            AccessError::StoreFailure => "Internal server error"@,
            AccessError::SubscriptionRequired => "This tool requires a subscription"@,
        }
    }

    /// The status that the refusal is answered with.
    pub fn status(&self) -> (s: Status)
        ensures
            s == self.status_of(),
    {
        match self {
            AccessError::InvalidUserId => Status::BadRequest,
            AccessError::UserNotFound => Status::NotFound,
            AccessError::StoreFailure => Status::InternalServerError,
            AccessError::SubscriptionRequired => Status::Forbidden,
        }
    }

    /// The text of the answer's `error` field.
    pub fn error(&self) -> (text: &'static str)
        ensures
            text@ == self.error_of(),
    {
        match self {
            AccessError::InvalidUserId => "Missing or invalid user_id",
            AccessError::UserNotFound => "User not found",
            AccessError::StoreFailure => "Internal server error",
            AccessError::SubscriptionRequired => "This tool requires a subscription",
        }
    }

    /// The hint that goes with a refusal for want of a subscription: the
    /// answer's `message` and `upgrade_url` fields. Other refusals carry none.
    pub fn upgrade_hint(&self) -> (hint: Option<(&'static str, &'static str)>)
        ensures
            match hint {
                Some((message, url)) => *self == AccessError::SubscriptionRequired && message@
                    == "Please upgrade your subscription to access this feature"@ && url@
                    == "/billing"@,
                None => *self != AccessError::SubscriptionRequired,
            },
    {
        match self {
            AccessError::SubscriptionRequired => Some(
                ("Please upgrade your subscription to access this feature", "/billing"),
            ),
            _ => None,
        }
    }
}

/// What the user store answered when it was asked for a user.
pub enum UserLookup {
    /// The user exists; these are the two fields that the access rule reads.
    Found { sub_tier: Option<String>, discount: bool },
    /// No user has that id.
    Missing,
    /// The store could not answer.
    Failed,
}

/// Whether a request for `path` passes, once the store has answered.
pub open spec fn access_verdict(path: Seq<char>, user: UserLookup) -> Result<(), AccessError> {
    match user {
        UserLookup::Found { sub_tier, discount } => if needs_subscription(
            path,
            tier_text(sub_tier),
            discount,
        ) {
            Err(AccessError::SubscriptionRequired)
        } else {
            Ok(())
        },
        UserLookup::Missing => Err(AccessError::UserNotFound),
        UserLookup::Failed => Err(AccessError::StoreFailure),
    }
}

/// First step of the access decision: which user the request is made for. The caller
/// looks that user up and hands the answer to `check_subscription_access`.
pub fn subject_of_request(query: &str) -> (r: Result<i32, AccessError>)
    ensures
        r == match user_id_of(form_pairs(query@)) {
            Some(id) => Ok::<i32, AccessError>(id),
            None => Err(AccessError::InvalidUserId),
        },
{
    match requested_user_id(query) {
        Some(id) => Ok(id),
        None => Err(AccessError::InvalidUserId),
    }
}

/// Second step of the access decision: lets the request for `path` pass, or says why
/// it is turned away.
pub fn check_subscription_access(path: &str, user: UserLookup) -> (r: Result<(), AccessError>)
    ensures
        r == access_verdict(path@, user),
{
    match user {
        UserLookup::Found { sub_tier, discount } => {
            if requires_subscription(path, sub_tier, discount) {
                Err(AccessError::SubscriptionRequired)
            } else {
                Ok(())
            }
        },
        UserLookup::Missing => Err(AccessError::UserNotFound),
        UserLookup::Failed => Err(AccessError::StoreFailure),
    }
}

} // verus!
