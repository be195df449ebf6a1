use assistant_core::catalog::{capabilities_label, listed_price};

fn prices(list: &[(&str, &str)]) -> Vec<(String, String)> {
    list.iter().map(|(n, p)| (n.to_string(), p.to_string())).collect()
}

#[test]
fn first_listed_price_is_shown() {
    let list = prices(&[("mobile", "3.00"), ("local", "1.15"), ("local", "9.99")]);
    assert_eq!(listed_price(&list, "local"), "1.15");
    assert_eq!(listed_price(&list, "mobile"), "3.00");
}

#[test]
fn missing_price_is_not_available() {
    let list = prices(&[("mobile", "3.00")]);
    assert_eq!(listed_price(&list, "local"), "N/A");
    assert_eq!(listed_price(&list, "Mobile"), "N/A");
    assert_eq!(listed_price(&Vec::new(), "local"), "N/A");
}

#[test]
fn capabilities_are_listed_in_order() {
    assert_eq!(capabilities_label(true, true, true), "Voice, SMS, MMS");
    assert_eq!(capabilities_label(true, true, false), "Voice, SMS");
    assert_eq!(capabilities_label(true, false, true), "Voice, MMS");
    assert_eq!(capabilities_label(false, true, true), "SMS, MMS");
    assert_eq!(capabilities_label(true, false, false), "Voice");
    assert_eq!(capabilities_label(false, true, false), "SMS");
    assert_eq!(capabilities_label(false, false, true), "MMS");
    assert_eq!(capabilities_label(false, false, false), "None");
}

#[test]
fn label_is_the_join_of_the_names() {
    for bits in 0..8 {
        let (voice, sms, mms) = (bits & 1 != 0, bits & 2 != 0, bits & 4 != 0);
        let mut names: Vec<String> = Vec::new();
        if voice {
            names.push("Voice".to_string());
        }
        if sms {
            names.push("SMS".to_string());
        }
        if mms {
            names.push("MMS".to_string());
        }
        let joined = if names.is_empty() { "None".to_string() } else { names.join(", ") };
        assert_eq!(capabilities_label(voice, sms, mms), joined);
    }
}
