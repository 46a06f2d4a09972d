use folio_backend::validate::is_blank_str;
use folio_backend::validate::is_valid_email_str;

#[test]
fn blank_empty_string() {
    assert!(is_blank_str(""));
}

#[test]
fn blank_whitespace_only() {
    assert!(is_blank_str("   \t\r\n"));
}

#[test]
fn blank_rejects_padded_word() {
    assert!(!is_blank_str("  a  "));
}

#[test]
fn email_plain_address() {
    assert!(is_valid_email_str("a@b.com"));
}

#[test]
fn email_rich_local_part() {
    assert!(is_valid_email_str("user.name+tag@example-domain.co"));
}

#[test]
fn email_single_label_domain() {
    assert!(is_valid_email_str("a@b"));
}

#[test]
fn email_missing_local() {
    assert!(!is_valid_email_str("@b.com"));
}

#[test]
fn email_missing_domain() {
    assert!(!is_valid_email_str("a@"));
}

#[test]
fn email_missing_at() {
    assert!(!is_valid_email_str("a.b.com"));
}

#[test]
fn email_double_dot_domain() {
    assert!(!is_valid_email_str("a@b..com"));
}

#[test]
fn email_label_starts_with_hyphen() {
    assert!(!is_valid_email_str("a@-b.com"));
}

#[test]
fn email_label_ends_with_hyphen() {
    assert!(!is_valid_email_str("a@b-.com"));
}

#[test]
fn email_space_in_local() {
    assert!(!is_valid_email_str("a b@c.com"));
}

#[test]
fn email_two_ats() {
    assert!(!is_valid_email_str("a@b@c.com"));
}

#[test]
fn email_trailing_dot_domain() {
    assert!(!is_valid_email_str("a@b.com."));
}

#[test]
fn email_empty_string() {
    assert!(!is_valid_email_str(""));
}
