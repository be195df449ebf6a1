use assistant_core::credentials::{is_phone_valid, is_sid_valid, is_token_valid};

#[test]
fn phone_number_is_plus_and_digits() {
    assert!(is_phone_valid("+358401234567"));
    assert!(is_phone_valid("+123456789"));
    assert!(!is_phone_valid("+12345678"));
    assert!(!is_phone_valid(""));
    assert!(!is_phone_valid("358401234567"));
    assert!(!is_phone_valid("+35840123456a"));
    assert!(!is_phone_valid("+3584 01234567"));
    assert!(!is_phone_valid("++358401234567"));
    assert!(!is_phone_valid("...........")); 
    assert!(!is_phone_valid("+٣٥٨٤٠١٢٣٤٥٦٧"));
}

#[test]
fn account_sid_is_ac_and_32_hex_digits() {
    let sid = format!("AC{}", "0123456789abcdefABCDEF0123456789");
    assert_eq!(sid.len(), 34);
    assert!(is_sid_valid(&sid));
    assert!(!is_sid_valid(&sid[..33]));
    assert!(!is_sid_valid(&format!("{}0", sid)));
    assert!(!is_sid_valid(&format!("ac{}", &sid[2..])));
    assert!(!is_sid_valid(&format!("AC{}g", &sid[2..33])));
    assert!(!is_sid_valid(""));
    assert!(!is_sid_valid(&format!("AC{}\u{00e9}", &sid[2..32])));
}

#[test]
fn auth_token_is_32_hex_digits() {
    assert!(is_token_valid("0123456789abcdef0123456789ABCDEF"));
    assert!(!is_token_valid("0123456789abcdef0123456789ABCDE"));
    assert!(!is_token_valid("0123456789abcdef0123456789ABCDEF0"));
    assert!(!is_token_valid("0123456789abcdef0123456789ABCDEG"));
    assert!(!is_token_valid("...23456789abcdef0123456789ABCDEF"));
    assert!(!is_token_valid(""));
}
