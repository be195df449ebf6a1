use vstd::prelude::*;
use crate::query::pairs_text;
use crate::text::same_text;

verus! {

/// The value of the first pair named `name`, if there is one.
pub open spec fn first_value(pairs: Seq<(Seq<char>, Seq<char>)>, name: Seq<char>) -> Option<
    Seq<char>,
>
    decreases pairs.len(),
{
    if pairs.len() == 0 {
        None
    } else if pairs[0].0 == name {
        Some(pairs[0].1)
    } else {
        first_value(pairs.drop_first(), name)
    }
}

/// The price that a price list shows for `name`: the first one listed under
/// that name, and `N/A` where there is none.
pub open spec fn listed_price_of(prices: Seq<(Seq<char>, Seq<char>)>, name: Seq<char>) -> Seq<
    char,
> {
    match first_value(prices, name) {
        Some(price) => price,
        None => "N/A"@,
    }
}

/// The price that a list of names and prices shows for `name`.
pub fn listed_price(prices: &Vec<(String, String)>, name: &str) -> (price: String)
    ensures
        price@ == listed_price_of(pairs_text(prices@), name@),
{
    let ghost all = pairs_text(prices@);
    let mut i: usize = 0;
    assert(all.skip(0) == all);
    while i < prices.len()
        invariant
            i <= prices.len(),
            all == pairs_text(prices@),
            first_value(all, name@) == first_value(all.skip(i as int), name@),
        decreases prices.len() - i,
    {
        assert(all.skip(i as int)[0] == all[i as int]);
        assert(all.skip(i as int).drop_first() == all.skip(i + 1));
        if same_text(prices[i].0.as_str(), name) {
            return prices[i].1.clone();
        }
        i = i + 1;
    }
    "N/A".to_owned()
}

/// What a phone number can do, as the table shows it: the names of its
/// capabilities in the order voice, SMS, MMS, with `, ` between them, and
/// `None` for a number that can do nothing.
pub open spec fn capabilities_of(voice: bool, sms: bool, mms: bool) -> Seq<char> {
    if voice && sms && mms {
        "Voice, SMS, MMS"@
    } else if voice && sms {
        "Voice, SMS"@
    } else if voice && mms {
        "Voice, MMS"@
    } else if sms && mms {
        "SMS, MMS"@
    } else if voice {
        "Voice"@
    } else if sms {
        "SMS"@
    } else if mms {
        "MMS"@
    } else {
        "None"@
    }
}

/// What a phone number can do, as the table shows it.
pub fn capabilities_label(voice: bool, sms: bool, mms: bool) -> (label: &'static str)
    ensures
        label@ == capabilities_of(voice, sms, mms),
{
    if voice && sms && mms {
        "Voice, SMS, MMS"
    } else if voice && sms {
        "Voice, SMS"
    } else if voice && mms {
        "Voice, MMS"
    } else if sms && mms {
        "SMS, MMS"
    } else if voice {
        "Voice"
    } else if sms {
        "SMS"
    } else if mms {
        "MMS"
    } else {
        "None"
    }
}

} // verus!
