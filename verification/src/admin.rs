use vstd::prelude::*;
use crate::text::{opt_text, same_text};

verus! {

/// Whether the usage table shows a log entry under a filter. Without a
/// filter every entry is shown; the filter `failed` shows the entries that
/// are known to have failed; any other filter shows the entries of the
/// activity type that it names.
pub open spec fn log_shown(filter: Option<Seq<char>>, activity_type: Seq<char>, success: Option<
    bool,
>) -> bool {
    match filter {
        None => true,
        Some(f) => if f == "failed"@ {
            success == Some(false)
        } else {
            activity_type == f
        },
    }
}

/// Whether the usage table shows a log entry under a filter.
pub fn shows_log(filter: Option<&str>, activity_type: &str, success: Option<bool>) -> (r: bool)
    ensures
        r == log_shown(opt_text(filter), activity_type@, success),
{
    match filter {
        None => true,
        Some(f) => {
            if same_text(f, "failed") {
                match success {
                    Some(ok) => !ok,
                    None => false,
                }
            } else {
                same_text(activity_type, f)
            }
        },
    }
}

/// The row that is open after a click on a user's row: the clicked one, or
/// none where the clicked row was open already.
pub fn toggle_selected(selected: Option<i32>, clicked: i32) -> (r: Option<i32>)
    ensures
        r == (if selected == Some(clicked) {
            None::<i32>
        } else {
            Some(clicked)
        }),
{
    match selected {
        Some(current) if current == clicked => None,
        _ => Some(clicked),
    }
}

/// The test that keeps every user but one.
pub open spec fn other_than(deleted: i32) -> spec_fn(i32) -> bool {
    |id: i32| id != deleted
}

/// The users that the table lists once one has been deleted: all the
/// others, in the order they had.
pub fn without_user(ids: &Vec<i32>, deleted: i32) -> (kept: Vec<i32>)
    ensures
        kept@ == ids@.filter(other_than(deleted)),
{
    let mut kept: Vec<i32> = Vec::new();
    let mut i: usize = 0;
    proof {
        reveal(Seq::filter);
    }
    assert(ids@.take(0) == Seq::<i32>::empty());
    while i < ids.len()
        invariant
            i <= ids.len(),
            kept@ == ids@.take(i as int).filter(other_than(deleted)),
        decreases ids.len() - i,
    {
        proof {
            reveal(Seq::filter);
            assert(ids@.take(i + 1).drop_last() == ids@.take(i as int));
            assert(ids@.take(i + 1).last() == ids@[i as int]);
        }
        if ids[i] != deleted {
            kept.push(ids[i]);
        }
        i = i + 1;
    }
    assert(ids@.take(i as int) == ids@);
    kept
}

/// Why a text message to all users is not sent, if it is not: it may not
/// be empty.
pub fn broadcast_refusal(message: &str) -> (r: Option<&'static str>)
    ensures
        match r {
            Some(reason) => message@.len() == 0 && reason@ == "Message cannot be empty"@,
            None => message@.len() > 0,
        },
{
    if message.is_empty() {
        Some("Message cannot be empty")
    } else {
        None
    }
}

/// Why an email to all users is not sent, if it is not: neither its subject
/// nor its message may be empty.
pub fn email_refusal(subject: &str, message: &str) -> (r: Option<&'static str>)
    ensures
        match r {
            Some(reason) => (subject@.len() == 0 || message@.len() == 0) && reason@
                == "Subject and message cannot be empty"@,
            None => subject@.len() > 0 && message@.len() > 0,
        },
{
    if subject.is_empty() || message.is_empty() {
        Some("Subject and message cannot be empty")
    } else {
        None
    }
}

} // verus!
