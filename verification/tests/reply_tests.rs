use drivogram::reply::{
    delete_outcome, login_status, login_user, share_outcome, DeleteOutcome, LoginStatus,
    ReplyError, ShareOutcome,
};

#[test]
fn status_codes() {
    assert_eq!(login_status(200), LoginStatus::Accepted);
    assert_eq!(login_status(401), LoginStatus::Rejected);
    assert_eq!(login_status(500), LoginStatus::Unavailable);
    assert_eq!(login_status(403), LoginStatus::Unavailable);
}

#[test]
fn login_user_is_json_text() {
    assert_eq!(login_user("{\"user\":\"bob\"}"), Ok(Some("\"bob\"".to_string())));
    assert_eq!(login_user("{\"user\":7}"), Ok(Some("7".to_string())));
}

#[test]
fn login_without_user() {
    assert_eq!(login_user("{\"user\":null}"), Ok(None));
    assert_eq!(login_user("{}"), Ok(None));
    assert_eq!(login_user("[1,2]"), Ok(None));
    assert_eq!(login_user("not json"), Err(ReplyError::Malformed));
}

#[test]
fn deletion_outcomes() {
    assert_eq!(
        delete_outcome("{\"message\":\"ok\",\"file\":\"a.txt\",\"user\":\"bob\"}"),
        Ok(DeleteOutcome::Deleted { file: "a.txt".to_string(), user: "bob".to_string() })
    );
    assert_eq!(delete_outcome("{\"file\":null}"), Ok(DeleteOutcome::Missing));
    assert_eq!(delete_outcome("{}"), Ok(DeleteOutcome::Missing));
    assert_eq!(delete_outcome("{\"file\":3,\"user\":\"bob\"}"), Err(ReplyError::NotText));
    assert_eq!(delete_outcome("{\"file\":\"a\"}"), Err(ReplyError::NotText));
    assert_eq!(delete_outcome("<html>"), Err(ReplyError::Malformed));
}

#[test]
fn share_outcomes() {
    assert_eq!(
        share_outcome("{\"link\":\"http://x/y\"}"),
        Ok(ShareOutcome::Shared { link: "http://x/y".to_string() })
    );
    assert_eq!(share_outcome("{\"link\":null}"), Ok(ShareOutcome::Missing));
    assert_eq!(share_outcome("{\"link\":[]}"), Err(ReplyError::NotText));
    assert_eq!(share_outcome(""), Err(ReplyError::Malformed));
}

use drivogram::reply::JsonField;

fn field(is_null: bool, text: Option<&str>, json: &str) -> JsonField {
    JsonField { is_null, text: text.map(|t| t.to_string()), json: json.to_string() }
}

#[test]
fn field_readings() {
    assert_eq!(field(true, None, "null").optional_text(), Ok(None));
    assert_eq!(field(false, Some("a"), "\"a\"").optional_text(), Ok(Some("a".to_string())));
    assert_eq!(field(false, None, "1").optional_text(), Err(ReplyError::NotText));
    assert_eq!(field(false, None, "1").required_text(), Err(ReplyError::NotText));
    assert_eq!(field(false, Some("a"), "\"a\"").required_text(), Ok("a".to_string()));
    assert_eq!(field(true, None, "null").optional_json(), None);
    assert_eq!(field(false, None, "{}").optional_json(), Some("{}".to_string()));
}
