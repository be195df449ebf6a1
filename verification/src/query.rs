use vstd::prelude::*;
use crate::decimal::{decimal_i32, parse_i32};
use crate::text::same_text;

verus! {

/// The name and value pairs that `url::form_urlencoded::parse` yields for the
/// UTF-8 bytes of a query string, in the order in which it yields them.
pub uninterp spec fn form_pairs(query: Seq<char>) -> Seq<(Seq<char>, Seq<char>)>;

/// The characters of each name and value of `pairs`.
pub open spec fn pairs_text(pairs: Seq<(String, String)>) -> Seq<(Seq<char>, Seq<char>)> {
    Seq::new(pairs.len(), |i: int| (pairs[i].0@, pairs[i].1@))
}

/// Calls `url::form_urlencoded::parse` on the bytes of `query` and collects
/// the owned pairs of its iterator. Trusted: the pairs returned are the ones
/// that `form_pairs` names; nothing is claimed of what they hold.
#[verifier::external_body]
fn parse_query(query: &str) -> (pairs: Vec<(String, String)>)
    ensures
        pairs_text(pairs@) == form_pairs(query@),
{
    url::form_urlencoded::parse(query.as_bytes()).into_owned().collect()
}

/// The value of the last pair named `name`: when a name is repeated, the
/// later pair replaces the earlier one.
pub open spec fn last_value(pairs: Seq<(Seq<char>, Seq<char>)>, name: Seq<char>) -> Option<
    Seq<char>,
>
    decreases pairs.len(),
{
    if pairs.len() == 0 {
        None
    } else if pairs.last().0 == name {
        Some(pairs.last().1)
    } else {
        last_value(pairs.drop_last(), name)
    }
}

/// The user id that a list of query pairs carries: the last `user_id` value,
/// read as a 32-bit signed decimal.
pub open spec fn user_id_of(pairs: Seq<(Seq<char>, Seq<char>)>) -> Option<i32> {
    match last_value(pairs, "user_id"@) {
        Some(text) => decimal_i32(text),
        None => None,
    }
}

/// The value of the last pair of `pairs` named `name`.
pub fn find_last<'a>(pairs: &'a Vec<(String, String)>, name: &str) -> (r: Option<&'a String>)
    ensures
        match r {
            Some(value) => last_value(pairs_text(pairs@), name@) == Some(value@),
            None => last_value(pairs_text(pairs@), name@) is None,
        },
{
    let ghost all = pairs_text(pairs@);
    let mut i: usize = pairs.len();
    assert(all.take(i as int) == all);
    while i > 0
        invariant
            i <= pairs.len(),
            all == pairs_text(pairs@),
            last_value(all, name@) == last_value(all.take(i as int), name@),
        decreases i,
    {
        i = i - 1;
        assert(all.take(i + 1).last() == all[i as int]);
        assert(all.take(i + 1).drop_last() == all.take(i as int));
        if same_text(pairs[i].0.as_str(), name) {
            return Some(&pairs[i].1);
        }
    }
    None
}

/// The user id among query pairs that were already parsed.
pub fn user_id_in(pairs: &Vec<(String, String)>) -> (r: Option<i32>)
    ensures
        r == user_id_of(pairs_text(pairs@)),
{
    match find_last(pairs, "user_id") {
        Some(text) => parse_i32(text.as_str()),
        None => None,
    }
}

/// The user id that a request's query string names, if it names a valid one.
pub fn requested_user_id(query: &str) -> (r: Option<i32>)
    ensures
        r == user_id_of(form_pairs(query@)),
{
    let pairs = parse_query(query);
    user_id_in(&pairs)
}

} // verus!
