use assistant_core::admin::{
    broadcast_refusal, email_refusal, shows_log, toggle_selected, without_user,
};

#[test]
fn no_filter_shows_every_log() {
    assert!(shows_log(None, "sms", Some(true)));
    assert!(shows_log(None, "call", Some(false)));
    assert!(shows_log(None, "", None));
}

#[test]
fn failed_filter_shows_known_failures() {
    assert!(shows_log(Some("failed"), "sms", Some(false)));
    assert!(shows_log(Some("failed"), "call", Some(false)));
    assert!(!shows_log(Some("failed"), "sms", Some(true)));
    assert!(!shows_log(Some("failed"), "sms", None));
    assert!(!shows_log(Some("failed"), "failed", Some(true)));
}

#[test]
fn other_filters_show_their_activity() {
    assert!(shows_log(Some("sms"), "sms", Some(false)));
    assert!(shows_log(Some("sms"), "sms", None));
    assert!(!shows_log(Some("sms"), "call", Some(true)));
    assert!(shows_log(Some("call"), "call", Some(true)));
    assert!(!shows_log(Some("call"), "Call", Some(true)));
    assert!(!shows_log(Some("Failed"), "sms", Some(false)));
}

#[test]
fn click_opens_a_row_and_a_second_click_closes_it() {
    assert_eq!(toggle_selected(None, 4), Some(4));
    assert_eq!(toggle_selected(Some(4), 4), None);
    assert_eq!(toggle_selected(Some(3), 4), Some(4));
    assert_eq!(toggle_selected(toggle_selected(None, 7), 7), None);
}

#[test]
fn deleted_user_leaves_the_list() {
    assert_eq!(without_user(&vec![1, 2, 3], 2), vec![1, 3]);
    assert_eq!(without_user(&vec![5, 1, 5, 2, 5], 5), vec![1, 2]);
    assert_eq!(without_user(&vec![3, 1, 2], 9), vec![3, 1, 2]);
    assert_eq!(without_user(&vec![4], 4), Vec::<i32>::new());
    assert_eq!(without_user(&Vec::new(), 4), Vec::<i32>::new());
}

#[test]
fn empty_broadcast_is_refused() {
    assert_eq!(broadcast_refusal(""), Some("Message cannot be empty"));
    assert_eq!(broadcast_refusal(" "), None);
    assert_eq!(broadcast_refusal("hello"), None);
}

#[test]
fn email_needs_subject_and_message() {
    assert_eq!(email_refusal("", "body"), Some("Subject and message cannot be empty"));
    assert_eq!(email_refusal("subject", ""), Some("Subject and message cannot be empty"));
    assert_eq!(email_refusal("", ""), Some("Subject and message cannot be empty"));
    assert_eq!(email_refusal("subject", "body"), None);
}
