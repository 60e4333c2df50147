use mailer::batch::{Action, Batch};
use mailer::config::Config;
use mailer::errors::{FailureKind, FatalError};
use mailer::message::{assemble_message, check_addresses, RecordExtractor, SUBJECT};
use mailer::recipients::RecipientList;

/// An extraction wiring for records that carry their destination under
/// `email` and their text under `body`.
struct FieldExtractor;

impl RecordExtractor for FieldExtractor {
    fn extract_address(&self, record: &serde_json::Value) -> String {
        match record.get("email").and_then(|v| v.as_str()) {
            Some(s) => s.to_string(),
            None => String::new(),
        }
    }

    fn extract_body(&self, record: &serde_json::Value) -> String {
        match record.get("body").and_then(|v| v.as_str()) {
            Some(s) => s.to_string(),
            None => String::new(),
        }
    }
}

fn good_config() -> Config {
    Config::load(
        Some("sender@gmail.com".to_string()),
        Some("app-password".to_string()),
    )
    .unwrap()
}

fn first_to_address(message: &lettre::Message) -> String {
    let to = message.envelope().to();
    assert_eq!(to.len(), 1);
    format!("{}", to[0])
}

/// Drives a batch to the end, pretending every handed-out send succeeds,
/// and returns the submitted destination addresses in submission order.
fn run_all_sends_ok(batch: &mut Batch, ext: &FieldExtractor) -> Vec<String> {
    let mut sent = Vec::new();
    loop {
        match batch.advance(ext) {
            Action::Send(message) => {
                sent.push(first_to_address(&message));
                batch.report_send(None);
            }
            Action::Skipped => {}
            Action::Finished => break,
        }
    }
    sent
}

#[test]
fn config_accepts_present_values() {
    let config = good_config();
    assert_eq!(config.sender, "sender@gmail.com");
    assert_eq!(config.token, "app-password");
}

#[test]
fn config_rejects_missing_sender() {
    let r = Config::load(None, Some("tok".to_string()));
    match r {
        Err(FatalError::Configuration(detail)) => {
            assert_eq!(detail, "environment variable SENDER not found");
        }
        _ => panic!("expected a configuration error"),
    }
}

#[test]
fn config_rejects_missing_password() {
    let r = Config::load(Some("sender@gmail.com".to_string()), None);
    match r {
        Err(FatalError::Configuration(detail)) => {
            assert_eq!(detail, "environment variable APP_PASSWORD not found");
        }
        _ => panic!("expected a configuration error"),
    }
}

#[test]
fn config_rejects_empty_values() {
    assert!(matches!(
        Config::load(Some(String::new()), Some("tok".to_string())),
        Err(FatalError::Configuration(_))
    ));
    assert!(matches!(
        Config::load(Some("sender@gmail.com".to_string()), Some(String::new())),
        Err(FatalError::Configuration(_))
    ));
}

#[test]
fn recipients_load_keeps_count() {
    let list = RecipientList::load(r#"[{"email":"a@x.com"},{"email":"b@y.com"},17]"#).unwrap();
    assert_eq!(list.len(), 3);
}

#[test]
fn recipients_empty_array_is_ok() {
    let list = RecipientList::load("[]").unwrap();
    assert_eq!(list.len(), 0);
}

#[test]
fn recipients_object_is_rejected() {
    match RecipientList::load("{}") {
        Err(FatalError::DataFormat(detail)) => {
            assert_eq!(detail, "recipient document must be a JSON array");
        }
        _ => panic!("expected a data-format error"),
    }
}

#[test]
fn recipients_malformed_json_is_rejected() {
    match RecipientList::load(r#"[{"email": "a@x.com""#) {
        Err(FatalError::DataFormat(detail)) => {
            assert!(detail.starts_with("failed to parse recipient document:"));
        }
        _ => panic!("expected a data-format error"),
    }
}

#[test]
fn valid_addresses_pass_and_assemble_into_a_message() {
    let (to, from) = check_addresses(0, "a@x.com", "sender@gmail.com").unwrap();
    let message = assemble_message(0, to, from, "hi".to_string()).unwrap();
    assert_eq!(first_to_address(&message), "a@x.com");
    let rendered = String::from_utf8(message.formatted()).unwrap();
    assert!(rendered.contains(SUBJECT));
    assert!(rendered.contains("hi"));
}

#[test]
fn invalid_recipient_fails_the_address_step() {
    let f = check_addresses(3, "not-an-address", "sender@gmail.com").unwrap_err();
    assert_eq!(f.index, 3);
    assert_eq!(f.kind, FailureKind::Address);
    assert!(f.detail.starts_with("Invalid recipient email address:"));
}

#[test]
fn invalid_sender_fails_the_address_step() {
    let f = check_addresses(0, "a@x.com", "not an address").unwrap_err();
    assert_eq!(f.index, 0);
    assert_eq!(f.kind, FailureKind::Address);
    assert!(f.detail.starts_with("Invalid sender email address:"));
}

/// An extraction wiring that refuses body extraction outright: only usable
/// on recipients that are skipped at the address step.
struct NoBodyExtractor;

impl RecordExtractor for NoBodyExtractor {
    fn extract_address(&self, record: &serde_json::Value) -> String {
        match record.get("email").and_then(|v| v.as_str()) {
            Some(s) => s.to_string(),
            None => String::new(),
        }
    }

    fn extract_body(&self, _record: &serde_json::Value) -> String {
        panic!("the body of a skipped recipient must never be extracted");
    }
}

#[test]
fn skipped_recipient_never_has_its_body_extracted() {
    let doc = r#"[{"email":"nope"},{"email":"also bad"}]"#;
    let list = RecipientList::load(doc).unwrap();
    let mut batch = Batch::begin(good_config(), list, None).unwrap();
    loop {
        match batch.advance(&NoBodyExtractor) {
            Action::Send(_) => panic!("no valid recipient exists"),
            Action::Skipped => {}
            Action::Finished => break,
        }
    }
    assert_eq!(batch.attempted(), 0);
    let failures = batch.into_outcome().unwrap_err();
    assert_eq!(failures.len(), 2);
    assert!(failures.iter().all(|f| f.kind == FailureKind::Address));
}

#[test]
fn connectivity_failure_is_fatal_before_any_send() {
    let list = RecipientList::load(r#"[{"email":"a@x.com","body":"hi"}]"#).unwrap();
    match Batch::begin(good_config(), list, Some("relay unreachable".to_string())) {
        Err(FatalError::Connection(detail)) => {
            assert_eq!(detail, "relay unreachable");
        }
        _ => panic!("expected a connection error"),
    }
}

#[test]
fn all_valid_recipients_are_attempted_in_order() {
    let doc = r#"[
        {"email":"a@x.com","body":"one"},
        {"email":"b@y.com","body":"two"},
        {"email":"c@z.com","body":"three"}
    ]"#;
    let list = RecipientList::load(doc).unwrap();
    let mut batch = Batch::begin(good_config(), list, None).unwrap();
    let sent = run_all_sends_ok(&mut batch, &FieldExtractor);
    assert_eq!(sent, vec!["a@x.com", "b@y.com", "c@z.com"]);
    assert_eq!(batch.attempted(), 3);
    assert_eq!(batch.processed(), 3);
    assert!(batch.is_done());
    assert_eq!(batch.into_outcome().unwrap(), 3);
}

#[test]
fn invalid_recipient_is_skipped_and_rest_are_processed() {
    let doc = r#"[
        {"email":"nope","body":"one"},
        {"email":"b@y.com","body":"two"}
    ]"#;
    let list = RecipientList::load(doc).unwrap();
    let mut batch = Batch::begin(good_config(), list, None).unwrap();
    let sent = run_all_sends_ok(&mut batch, &FieldExtractor);
    assert_eq!(sent, vec!["b@y.com"]);
    assert_eq!(batch.attempted(), 1);
    assert_eq!(batch.processed(), 2);
    let failures = batch.into_outcome().unwrap_err();
    assert_eq!(failures.len(), 1);
    assert_eq!(failures[0].index, 0);
    assert_eq!(failures[0].kind, FailureKind::Address);
}

#[test]
fn scalar_document_is_rejected() {
    match RecipientList::load("\"just a string\"") {
        Err(FatalError::DataFormat(detail)) => {
            assert_eq!(detail, "recipient document must be a JSON array");
        }
        _ => panic!("expected a data-format error"),
    }
}

#[test]
fn record_without_expected_fields_is_skipped() {
    let doc = r#"[17, {"email":"b@y.com","body":"two"}]"#;
    let list = RecipientList::load(doc).unwrap();
    let mut batch = Batch::begin(good_config(), list, None).unwrap();
    let sent = run_all_sends_ok(&mut batch, &FieldExtractor);
    assert_eq!(sent, vec!["b@y.com"]);
    let failures = batch.into_outcome().unwrap_err();
    assert_eq!(failures.len(), 1);
    assert_eq!(failures[0].index, 0);
    assert_eq!(failures[0].kind, FailureKind::Address);
}

#[test]
fn failed_send_is_recorded_and_batch_continues() {
    let doc = r#"[
        {"email":"a@x.com","body":"one"},
        {"email":"b@y.com","body":"two"}
    ]"#;
    let list = RecipientList::load(doc).unwrap();
    let mut batch = Batch::begin(good_config(), list, None).unwrap();
    let mut handed_out = 0;
    loop {
        match batch.advance(&FieldExtractor) {
            Action::Send(_) => {
                handed_out += 1;
                if handed_out == 1 {
                    batch.report_send(Some("550 mailbox unavailable".to_string()));
                } else {
                    batch.report_send(None);
                }
            }
            Action::Skipped => {}
            Action::Finished => break,
        }
    }
    assert_eq!(batch.attempted(), 2);
    let failures = batch.into_outcome().unwrap_err();
    assert_eq!(failures.len(), 1);
    assert_eq!(failures[0].index, 0);
    assert_eq!(failures[0].kind, FailureKind::Send);
    assert_eq!(failures[0].detail, "550 mailbox unavailable");
}

#[test]
fn end_to_end_one_send_one_address_failure() {
    let doc = r#"[{"email":"a@x.com","body":"hi"},{"email":"not-an-address","body":"x"}]"#;
    let config = Config::load(
        Some("sender@gmail.com".to_string()),
        Some("app-password".to_string()),
    )
    .unwrap();
    let list = RecipientList::load(doc).unwrap();
    assert_eq!(list.len(), 2);
    let mut batch = Batch::begin(config, list, None).unwrap();
    let sent = run_all_sends_ok(&mut batch, &FieldExtractor);
    assert_eq!(sent, vec!["a@x.com"]);
    assert_eq!(batch.attempted(), 1);
    assert_eq!(batch.failures().len(), 1);
    let failures = batch.into_outcome().unwrap_err();
    assert_eq!(failures[0].index, 1);
    assert_eq!(failures[0].kind, FailureKind::Address);
    assert!(failures[0].detail.starts_with("Invalid recipient email address:"));
}

#[test]
fn empty_batch_succeeds_with_zero_attempts() {
    let list = RecipientList::load("[]").unwrap();
    let mut batch = Batch::begin(good_config(), list, None).unwrap();
    let sent = run_all_sends_ok(&mut batch, &FieldExtractor);
    assert!(sent.is_empty());
    assert_eq!(batch.into_outcome().unwrap(), 0);
}
