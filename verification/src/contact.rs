//! The contact form: validate the submission, escape its fields for HTML,
//! and build the payload the email provider is asked to deliver. The
//! delivery itself (an outbound POST) happens outside the library; the
//! decision on the provider's answer comes back through `contact_result`.

use vstd::prelude::*;
use vstd::string::StrSliceExecFns;
use vstd::string::StringExecFns;
use crate::error::AppError;
use crate::validate::is_blank;
use crate::validate::is_blank_str;
use crate::validate::is_valid_email_str;
use crate::validate::valid_email;

verus! {

/// A contact-form submission.
pub struct ContactPayload {
    pub name: String,
    pub email: String,
    pub message: String,
}

/// The body of the delivery request handed to the email provider.
#[derive(Debug)]
pub struct ResendPayload {
    pub from: String,
    pub to: Vec<String>,
    pub subject: String,
    pub html: String,
}

/// A submission is acceptable when the name is not blank, the email matches
/// the address grammar, and the message has at least ten characters.
pub open spec fn contact_valid(p: &ContactPayload) -> bool {
    !is_blank(p.name@) && valid_email(p.email@) && p.message@.len() >= 10
}

/// Check a submission, rejecting with a field-scoped message; fields are
/// checked in order name, email, message, and the first failure is
/// reported.
pub fn validate_contact(p: &ContactPayload) -> (r: Result<(), AppError>)
    ensures
        (r is Ok) == contact_valid(p),
        is_blank(p.name@) ==> (r matches Err(e) && e matches AppError::ValidationError(m) && m@
            == "Name cannot be empty"@),
        !is_blank(p.name@) && !valid_email(p.email@) ==> (r matches Err(e) && e matches AppError::ValidationError(m)
            && m@ == "Invalid email address"@),
        !is_blank(p.name@) && valid_email(p.email@) && p.message@.len() < 10 ==> (r matches Err(e)
            && e matches AppError::ValidationError(m) && m@
            == "Message must be at least 10 characters long"@),
{
    if is_blank_str(p.name.as_str()) {
        return Err(AppError::ValidationError("Name cannot be empty".to_owned()));
    }
    if !is_valid_email_str(p.email.as_str()) {
        return Err(AppError::ValidationError("Invalid email address".to_owned()));
    }
    if p.message.as_str().unicode_len() < 10 {
        return Err(
            AppError::ValidationError("Message must be at least 10 characters long".to_owned()),
        );
    }
    Ok(())
}

/// What one character becomes in HTML text: the three significant
/// characters as entities, everything else as itself.
pub open spec fn escape_char(c: char) -> Seq<char> {
    if c == '&' {
        "&amp;"@
    } else if c == '<' {
        "&lt;"@
    } else if c == '>' {
        "&gt;"@
    } else {
        seq![c]
    }
}

/// A string escaped for HTML text, character by character.
pub open spec fn html_escaped(s: Seq<char>) -> Seq<char>
    decreases s.len(),
{
    if s.len() == 0 {
        Seq::empty()
    } else {
        escape_char(s[0]) + html_escaped(s.skip(1))
    }
}

/// Relies on html-escape's `encode_text`, which replaces exactly `&`, `<`
/// and `>` with their entities and keeps every other character.
#[verifier::external_body]
fn escape_html(s: &str) -> (r: String)
    ensures
        r@ == html_escaped(s@),
{
    html_escape::encode_text(s).into_owned()
}

/// Build the delivery request for a submission: subject and body carry the
/// submission's fields, each escaped for HTML.
pub fn build_email(from: &String, to: &String, payload: &ContactPayload) -> (r: ResendPayload)
    ensures
        r.from@ == from@,
        r.to.deep_view() =~= seq![to@],
        r.subject@ == "New Portfolio Message from "@ + html_escaped(payload.name@),
        r.html@ == "<h1>New Portfolio Message!</h1><p><strong>From:</strong> "@ + html_escaped(
            payload.name@,
        ) + "</p><p><strong>Email:</strong> <a href='mailto:"@ + html_escaped(payload.email@)
            + "'>"@ + html_escaped(payload.email@)
            + "</a></p><hr><p><strong>Message:</strong></p><pre>"@ + html_escaped(payload.message@)
            + "</pre>"@,
{
    let safe_name = escape_html(payload.name.as_str());
    let safe_email = escape_html(payload.email.as_str());
    let safe_message = escape_html(payload.message.as_str());

    let mut subject = "New Portfolio Message from ".to_owned();
    subject.append(safe_name.as_str());

    let mut html = "<h1>New Portfolio Message!</h1><p><strong>From:</strong> ".to_owned();
    html.append(safe_name.as_str());
    html.append("</p><p><strong>Email:</strong> <a href='mailto:");
    html.append(safe_email.as_str());
    html.append("'>");
    html.append(safe_email.as_str());
    html.append("</a></p><hr><p><strong>Message:</strong></p><pre>");
    html.append(safe_message.as_str());
    html.append("</pre>");

    let mut to_list: Vec<String> = Vec::new();
    to_list.push(to.clone());

    ResendPayload { from: from.clone(), to: to_list, subject, html }
}

/// The whole verified part of the contact handler: reject an invalid
/// submission exactly as `validate_contact` does, otherwise hand back the
/// delivery request to send.
pub fn contact_request(from: &String, to: &String, payload: &ContactPayload) -> (r: Result<
    ResendPayload,
    AppError,
>)
    ensures
        (r is Ok) == contact_valid(payload),
        is_blank(payload.name@) ==> (r matches Err(e) && e matches AppError::ValidationError(m)
            && m@ == "Name cannot be empty"@),
        !is_blank(payload.name@) && !valid_email(payload.email@) ==> (r matches Err(e)
            && e matches AppError::ValidationError(m) && m@ == "Invalid email address"@),
        !is_blank(payload.name@) && valid_email(payload.email@) && payload.message@.len() < 10 ==> (
        r matches Err(e) && e matches AppError::ValidationError(m) && m@
            == "Message must be at least 10 characters long"@),
        r matches Ok(req) ==> {
            &&& req.from@ == from@
            &&& req.to.deep_view() =~= seq![to@]
            &&& req.subject@ == "New Portfolio Message from "@ + html_escaped(payload.name@)
            &&& req.html@ == "<h1>New Portfolio Message!</h1><p><strong>From:</strong> "@
                + html_escaped(payload.name@) + "</p><p><strong>Email:</strong> <a href='mailto:"@
                + html_escaped(payload.email@) + "'>"@ + html_escaped(payload.email@)
                + "</a></p><hr><p><strong>Message:</strong></p><pre>"@ + html_escaped(
                payload.message@,
            ) + "</pre>"@
        },
{
    match validate_contact(payload) {
        Err(e) => Err(e),
        Ok(()) => Ok(build_email(from, to, payload)),
    }
}

/// Turn the email provider's answer into the handler's response: a success
/// message on a success status, the provider's words wrapped in the
/// upstream error otherwise.
pub fn contact_result(status_success: bool, error_text: &String) -> (r: Result<String, AppError>)
    ensures
        status_success ==> (r matches Ok(m) && m@ == "Message sent successfully!"@),
        !status_success ==> (r matches Err(e) && e matches AppError::Resend(m) && m@
            == "Resend API failed: "@ + error_text@),
{
    if status_success {
        Ok("Message sent successfully!".to_owned())
    } else {
        let mut m = "Resend API failed: ".to_owned();
        m.append(error_text.as_str());
        Err(AppError::Resend(m))
    }
}

} // verus!
