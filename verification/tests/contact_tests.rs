use folio_backend::contact::build_email;
use folio_backend::contact::contact_request;
use folio_backend::contact::contact_result;
use folio_backend::contact::validate_contact;
use folio_backend::contact::ContactPayload;
use folio_backend::error::AppError;

fn payload(name: &str, email: &str, message: &str) -> ContactPayload {
    ContactPayload {
        name: name.to_string(),
        email: email.to_string(),
        message: message.to_string(),
    }
}

#[test]
fn valid_submission_passes() {
    let p = payload("Ada", "ada@example.org", "I enjoyed your site!");
    assert!(validate_contact(&p).is_ok());
}

#[test]
fn blank_name_rejected_first() {
    let p = payload("  ", "not-an-email", "short");
    let err = validate_contact(&p).unwrap_err();
    assert!(matches!(&err, AppError::ValidationError(m) if m == "Name cannot be empty"));
}

#[test]
fn bad_email_rejected() {
    let p = payload("Ada", "ada@@example.org", "long enough message");
    let err = validate_contact(&p).unwrap_err();
    assert!(matches!(&err, AppError::ValidationError(m) if m == "Invalid email address"));
}

#[test]
fn short_message_rejected() {
    let p = payload("Ada", "ada@example.org", "hi there");
    let err = validate_contact(&p).unwrap_err();
    assert!(
        matches!(&err, AppError::ValidationError(m) if m == "Message must be at least 10 characters long")
    );
}

#[test]
fn ten_character_message_is_enough() {
    let p = payload("Ada", "ada@example.org", "0123456789");
    assert!(validate_contact(&p).is_ok());
}

#[test]
fn email_body_escapes_markup() {
    let from = "site@example.org".to_string();
    let to = "owner@example.org".to_string();
    let p = payload("<b>Ada & Co</b>", "ada@example.org", "1 < 2 && 3 > 2");
    let req = build_email(&from, &to, &p);
    assert_eq!(req.from, "site@example.org");
    assert_eq!(req.to, vec!["owner@example.org".to_string()]);
    assert_eq!(req.subject, "New Portfolio Message from &lt;b&gt;Ada &amp; Co&lt;/b&gt;");
    assert!(req.html.contains("<p><strong>From:</strong> &lt;b&gt;Ada &amp; Co&lt;/b&gt;</p>"));
    assert!(req.html.contains("<pre>1 &lt; 2 &amp;&amp; 3 &gt; 2</pre>"));
    assert!(req.html.contains("<a href='mailto:ada@example.org'>ada@example.org</a>"));
}

#[test]
fn contact_request_validates_then_builds() {
    let from = "site@example.org".to_string();
    let to = "owner@example.org".to_string();
    let bad = payload("Ada", "nope", "long enough message");
    assert!(matches!(
        contact_request(&from, &to, &bad),
        Err(AppError::ValidationError(m)) if m == "Invalid email address"
    ));

    let good = payload("Ada", "ada@example.org", "long enough message");
    let req = contact_request(&from, &to, &good).unwrap();
    assert_eq!(req.subject, "New Portfolio Message from Ada");
}

#[test]
fn provider_success_yields_confirmation() {
    let detail = String::new();
    let r = contact_result(true, &detail).unwrap();
    assert_eq!(r, "Message sent successfully!");
}

#[test]
fn provider_failure_is_wrapped_upstream_error() {
    let detail = "quota exceeded".to_string();
    let err = contact_result(false, &detail).unwrap_err();
    assert!(matches!(&err, AppError::Resend(m) if m == "Resend API failed: quota exceeded"));
    assert_eq!(err.status(), 502);
}
