use contact_mailer::config::{ConfigError, RelayConfig, HOST_VAR, PASSWORD_VAR, USERNAME_VAR};
use contact_mailer::dispatch::{
    compose, plan_mail, DispatchError, IdentityError, SenderIdentity, FIXED_FROM, FIXED_REPLY_TO,
    SUBJECT,
};
use contact_mailer::handler::{handle_submission, Step};
use contact_mailer::reply::{
    dispatch_rejected, greeting, reply_after_send, submission_rejected, SendOutcome,
    GREETING_HTML,
};
use contact_mailer::submission::{Submission, SubmissionError};

fn some(s: &str) -> Option<String> {
    Some(s.to_string())
}

fn identity() -> SenderIdentity {
    SenderIdentity::fixed().expect("the fixed sender mailboxes parse")
}

fn submit(fullname: Option<String>, email: Option<String>, message: Option<String>) -> Step {
    handle_submission(&identity(), fullname, email, message)
}

#[test]
fn ada_scenario_composes_one_message() {
    match submit(some("Ada"), some("ada@example.com"), some("hello")) {
        Step::Send(d) => {
            assert_eq!(d.mail.from, "You <you@yordomain.com>");
            assert_eq!(d.mail.from, FIXED_FROM);
            assert_eq!(d.mail.reply_to, FIXED_REPLY_TO);
            assert_eq!(d.mail.to, "Ada <ada@example.com>");
            assert_eq!(d.mail.subject, "Axum Rust tutorial");
            assert_eq!(d.mail.subject, SUBJECT);
            assert_eq!(d.mail.body, "hello");
            let to: Vec<String> = d.message.envelope().to().iter().map(|a| a.to_string()).collect();
            assert_eq!(to, vec!["ada@example.com".to_string()]);
            assert_eq!(
                d.message.envelope().from().map(|a| a.to_string()),
                Some("you@yordomain.com".to_string())
            );
            let text = String::from_utf8(d.message.formatted()).unwrap();
            assert!(text.contains("Subject: Axum Rust tutorial"));
            assert!(text.contains("To: Ada <ada@example.com>"));
            assert!(text.contains("\r\n\r\nhello"));
        }
        Step::Respond(r) => panic!("expected a message, got status {}", r.status),
    }
}

#[test]
fn valid_form_addresses_the_submitter() {
    match submit(some("Grace Hopper"), some("grace@navy.mil"), some("")) {
        Step::Send(d) => {
            assert_eq!(d.mail.to, "Grace Hopper <grace@navy.mil>");
            assert_eq!(d.mail.body, "");
            assert_eq!(d.message.envelope().to().len(), 1);
        }
        Step::Respond(_) => panic!("expected a message"),
    }
    assert_eq!(reply_after_send(SendOutcome::Sent).status, 200);
    assert_eq!(reply_after_send(SendOutcome::Sent).body, "");
}

fn expect_rejection(step: Step, status: u16, body: &str) {
    match step {
        Step::Respond(r) => {
            assert_eq!(r.status, status);
            assert!(!r.html);
            assert_eq!(r.body, body);
        }
        Step::Send(_) => panic!("nothing may be sent"),
    }
}

#[test]
fn missing_fullname_is_a_client_error() {
    expect_rejection(submit(None, some("ada@example.com"), some("hello")), 422, "missing field `fullname`");
}

#[test]
fn missing_email_is_a_client_error() {
    expect_rejection(submit(some("Ada"), None, some("hello")), 422, "missing field `email`");
}

#[test]
fn missing_message_is_a_client_error() {
    expect_rejection(submit(some("Ada"), some("ada@example.com"), None), 422, "missing field `message`");
}

#[test]
fn all_fields_missing_reports_fullname_first() {
    expect_rejection(submit(None, None, None), 422, "missing field `fullname`");
}

#[test]
fn empty_fullname_is_a_client_error() {
    expect_rejection(submit(some(""), some("ada@example.com"), some("hello")), 422, "field `fullname` is empty");
}

#[test]
fn invalid_email_is_a_request_error() {
    expect_rejection(submit(some("Ada"), some("not-an-address"), some("hello")), 422, "invalid email address");
    expect_rejection(submit(some("Ada"), some("ada@@"), some("hello")), 422, "invalid email address");
}

#[test]
fn same_form_twice_gives_two_messages() {
    let id = identity();
    let mut sent = Vec::new();
    for _ in 0..2 {
        match handle_submission(&id, some("Ada"), some("ada@example.com"), some("hello")) {
            Step::Send(d) => sent.push(d.mail.to),
            Step::Respond(_) => panic!("expected a message"),
        }
    }
    assert_eq!(sent, vec!["Ada <ada@example.com>".to_string(), "Ada <ada@example.com>".to_string()]);
}

#[test]
fn greeting_is_fixed_html() {
    let r = greeting();
    assert_eq!(r.status, 200);
    assert!(r.html);
    assert_eq!(r.body, "<h1>Hello, World!</h1>");
    assert_eq!(r.body, GREETING_HTML);
    let again = greeting();
    assert_eq!(again.body, r.body);
}

#[test]
fn failed_send_stays_with_the_request() {
    let r = reply_after_send(SendOutcome::Failed);
    assert_eq!(r.status, 502);
    assert_eq!(r.body, "could not send email");
}

#[test]
fn rejection_replies() {
    assert_eq!(submission_rejected(SubmissionError::MissingEmail).body, "missing field `email`");
    assert_eq!(submission_rejected(SubmissionError::EmptyFullname).status, 422);
    let r = dispatch_rejected(DispatchError::InvalidRecipient);
    assert_eq!(r.status, 422);
    assert_eq!(r.body, "invalid email address");
    assert_eq!(dispatch_rejected(DispatchError::Unbuildable).body, "the message could not be composed");
}

#[test]
fn recipient_text_joins_name_and_address() {
    let s = Submission::from_fields(some("Ada Lovelace"), some("ada@example.com"), some("hi")).unwrap();
    assert_eq!(s.recipient(), "Ada Lovelace <ada@example.com>");
    let mail = plan_mail(&identity(), &s);
    assert_eq!(mail.to, "Ada Lovelace <ada@example.com>");
    assert_eq!(mail.body, "hi");
}

#[test]
fn from_fields_keeps_values() {
    let s = Submission::from_fields(some("A"), some("a@b.c"), some("m")).unwrap();
    assert_eq!(s.fullname, "A");
    assert_eq!(s.email, "a@b.c");
    assert_eq!(s.message, "m");
    assert!(matches!(Submission::from_fields(some("A"), None, None), Err(SubmissionError::MissingEmail)));
}

#[test]
fn name_that_breaks_the_to_header_is_a_request_error() {
    expect_rejection(
        submit(some("x@y z, w"), some("ada@example.com"), some("hello")),
        422,
        "the message could not be composed",
    );
}

#[test]
fn compose_refuses_unbalanced_mailbox() {
    let s = Submission { fullname: "Ada".to_string(), email: "ada@example.com<".to_string(), message: "x".to_string() };
    assert!(matches!(compose(&identity(), &s), Err(DispatchError::InvalidRecipient)));
}

#[test]
fn sender_identity_checks_both_mailboxes() {
    let id = SenderIdentity::new("Shop <shop@example.com>", "help@example.com").unwrap();
    assert_eq!(id.from(), "Shop <shop@example.com>");
    assert_eq!(id.reply_to(), "help@example.com");
    assert!(matches!(SenderIdentity::new("nobody", "help@example.com"), Err(IdentityError::InvalidFrom)));
    assert!(matches!(SenderIdentity::new("shop@example.com", "<x"), Err(IdentityError::InvalidReplyTo)));
    let fixed = identity();
    assert_eq!(fixed.from(), FIXED_FROM);
    assert_eq!(fixed.reply_to(), FIXED_REPLY_TO);
}

#[test]
fn relay_config_needs_all_three_values() {
    let c = RelayConfig::from_values(some("user"), some("pw"), some("smtp.example.com")).unwrap();
    assert_eq!(c.username, "user");
    assert_eq!(c.password, "pw");
    assert_eq!(c.host, "smtp.example.com");
    assert!(matches!(RelayConfig::from_values(None, some("pw"), some("h")), Err(ConfigError::MissingUsername)));
    assert!(matches!(RelayConfig::from_values(some("u"), None, None), Err(ConfigError::MissingPassword)));
    assert!(matches!(RelayConfig::from_values(some("u"), some("pw"), None), Err(ConfigError::MissingHost)));
}

#[test]
fn config_error_names_its_variable() {
    assert_eq!(ConfigError::MissingUsername.variable(), "SMTP_USERNAME");
    assert_eq!(ConfigError::MissingPassword.variable(), PASSWORD_VAR);
    assert_eq!(ConfigError::MissingHost.variable(), HOST_VAR);
    assert_eq!(USERNAME_VAR, "SMTP_USERNAME");
}
