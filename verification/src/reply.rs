//! What the client makes of the server's answers: status codes and JSON replies.
use vstd::prelude::*;

verus! {

/// How the server answered a check of an account key.
#[derive(Clone, Copy, Debug, PartialEq, Eq)]
pub enum LoginStatus {
    /// `200 OK`: the key names an account.
    Accepted,
    /// `401 Unauthorized`: the key names no account.
    Rejected,
    /// Any other status: the server cannot tell now.
    Unavailable,
}

/// Reads the HTTP status of the answer to a key check.
pub fn login_status(code: u16) -> (status: LoginStatus)
    ensures
        status == (if code == 200 {
            LoginStatus::Accepted
        } else if code == 401 {
            LoginStatus::Rejected
        } else {
            LoginStatus::Unavailable
        }),
{
    if code == 200 {
        LoginStatus::Accepted
    } else if code == 401 {
        LoginStatus::Rejected
    } else {
        LoginStatus::Unavailable
    }
}

/// Why a reply could not be used.
#[derive(Clone, Copy, Debug, PartialEq, Eq)]
pub enum ReplyError {
    /// The reply is no JSON document.
    Malformed,
    /// A field that should hold a string holds something else.
    NotText,
}

/// One field of a JSON reply, as the client reads it: whether it is `null` (an absent field
/// reads as `null`), the string it holds if it holds one, and its JSON text.
#[derive(Clone, Debug, PartialEq, Eq)]
pub struct JsonField {
    pub is_null: bool,
    pub text: Option<String>,
    pub json: String,
}

impl View for JsonField {
    type V = (bool, Option<Seq<char>>, Seq<char>);

    open spec fn view(&self) -> (bool, Option<Seq<char>>, Seq<char>) {
        (self.is_null, self.text.deep_view(), self.json@)
    }
}

/// The text of a field that may be `null`: `None` for `null`, the string it holds, or
/// `NotText` where it holds something else.
pub open spec fn spec_optional_text(field: (bool, Option<Seq<char>>, Seq<char>)) -> Result<Option<Seq<char>>, ReplyError> {
    if field.0 {
        Ok(None)
    } else {
        match field.1 {
            Some(t) => Ok(Some(t)),
            None => Err(ReplyError::NotText),
        }
    }
}

impl JsonField {
    /// The JSON text of the field, or `None` where it is `null`.
    pub fn optional_json(self) -> (json: Option<String>)
        ensures
            json.deep_view() == (if self.is_null {
                None
            } else {
                Some(self.json@)
            }),
    {
        if self.is_null {
            None
        } else {
            Some(self.json)
        }
    }

    /// The string the field holds; `NotText` where it holds none.
    pub fn required_text(self) -> (text: Result<String, ReplyError>)
        ensures
            match text {
                Ok(t) => self.text == Some(t),
                Err(e) => self.text is None && e == ReplyError::NotText,
            },
    {
        match self.text {
            Some(t) => Ok(t),
            None => Err(ReplyError::NotText),
        }
    }

    /// The string the field holds, `None` where it is `null`; `NotText` where it holds
    /// something else.
    pub fn optional_text(self) -> (text: Result<Option<String>, ReplyError>)
        ensures
            match text {
                Ok(t) => spec_optional_text(self@) == Ok::<Option<Seq<char>>, ReplyError>(t.deep_view()),
                Err(e) => spec_optional_text(self@) == Err::<Option<Seq<char>>, ReplyError>(e),
            },
    {
        if self.is_null {
            Ok(None)
        } else {
            match self.required_text() {
                Ok(t) => Ok(Some(t)),
                Err(e) => Err(e),
            }
        }
    }
}

/// What serde_json makes of field `key` of the document `reply` (parsed with `from_str`
/// into a `Value`, then indexed with `key`, read with `is_null`, `as_str` and `to_string`);
/// `None` where `reply` is no JSON document.
pub uninterp spec fn json_field(reply: Seq<char>, key: Seq<char>) -> Option<(bool, Option<Seq<char>>, Seq<char>)>;

#[verifier::external_type_specification]
#[verifier::external_body]
pub struct ExJsonError(serde_json::Error);

/// Calls serde_json: parses `reply` into a `Value` and reads field `key` of it. Claimed: the
/// outcome is a function of the two texts; `null` holds no string and is written `null`;
/// whether the reply parses does not depend on the key (indexing a parsed value never fails).
#[verifier::external_body]
fn read_json_field(reply: &str, key: &str) -> (res: Result<JsonField, serde_json::Error>)
    ensures
        res is Ok <==> json_field(reply@, key@) is Some,
        res matches Ok(f) ==> Some(f@) == json_field(reply@, key@),
        res matches Ok(f) ==> (f.is_null ==> f.text is None && f.json@ == "null"@),
        res is Ok ==> forall|k: Seq<char>| (#[trigger] json_field(reply@, k)) is Some,
        res is Err ==> forall|k: Seq<char>| (#[trigger] json_field(reply@, k)) is None,
{
    let value: serde_json::Value = serde_json::from_str(reply)?;
    let field = &value[key];
    let text = match field.as_str() {
        Some(s) => Some(s.to_string()),
        None => None,
    };
    Ok(JsonField { is_null: field.is_null(), text, json: field.to_string() })
}

/// The account name in the answer to a successful key check: `None` where the reply's
/// `user` field is `null` or absent, else the field's JSON text.
pub open spec fn spec_login_user(reply: Seq<char>) -> Result<Option<Seq<char>>, ReplyError> {
    match json_field(reply, "user"@) {
        None => Err(ReplyError::Malformed),
        Some((is_null, _, json)) => if is_null {
            Ok(None)
        } else {
            Ok(Some(json))
        },
    }
}

/// Reads the account name from the answer to a successful key check.
pub fn login_user(reply: &str) -> (user: Result<Option<String>, ReplyError>)
    ensures
        match user {
            Ok(u) => spec_login_user(reply@) == Ok::<Option<Seq<char>>, ReplyError>(u.deep_view()),
            Err(e) => spec_login_user(reply@) == Err::<Option<Seq<char>>, ReplyError>(e),
        },
        match json_field(reply@, "user"@) {
            None => user == Err::<Option<String>, ReplyError>(ReplyError::Malformed),
            Some(f) => (user matches Ok(u) && u.deep_view() == (if f.0 {
                None
            } else {
                Some(f.2)
            })),
        },
{
    match read_json_field(reply, "user") {
        Err(_) => Err(ReplyError::Malformed),
        Ok(f) => Ok(f.optional_json()),
    }
}

/// Field `key` of `reply` as text: `Malformed` where the reply is no JSON, `NotText`
/// where the field holds no string.
pub open spec fn spec_text_field(reply: Seq<char>, key: Seq<char>) -> Result<Seq<char>, ReplyError> {
    match json_field(reply, key) {
        None => Err(ReplyError::Malformed),
        Some(f) => match f.1 {
            Some(t) => Ok(t),
            None => Err(ReplyError::NotText),
        },
    }
}

/// What became of a request to delete a file.
#[derive(Clone, Debug, PartialEq, Eq)]
pub enum DeleteOutcome {
    /// No file has the key.
    Missing,
    /// The file `file` of the account `user` was deleted.
    Deleted { file: String, user: String },
}

/// The answer to a deletion: `None` where its `file` field is `null` or absent, else the
/// names in its `file` and `user` fields.
pub open spec fn spec_delete_outcome(reply: Seq<char>) -> Result<Option<(Seq<char>, Seq<char>)>, ReplyError> {
    match json_field(reply, "file"@) {
        None => Err(ReplyError::Malformed),
        Some(f) => match spec_optional_text(f) {
            Err(e) => Err(e),
            Ok(None) => Ok(None),
            Ok(Some(file)) => match spec_text_field(reply, "user"@) {
                Err(e) => Err(e),
                Ok(user) => Ok(Some((file, user))),
            },
        },
    }
}

/// Reads the answer to a deletion.
pub fn delete_outcome(reply: &str) -> (outcome: Result<DeleteOutcome, ReplyError>)
    ensures
        match outcome {
            Ok(DeleteOutcome::Missing) => spec_delete_outcome(reply@) == Ok::<
                Option<(Seq<char>, Seq<char>)>,
                ReplyError,
            >(None),
            Ok(DeleteOutcome::Deleted { file, user }) => spec_delete_outcome(reply@) == Ok::<
                Option<(Seq<char>, Seq<char>)>,
                ReplyError,
            >(Some((file@, user@))),
            Err(e) => spec_delete_outcome(reply@) == Err::<Option<(Seq<char>, Seq<char>)>, ReplyError>(e),
        },
        outcome == Err::<DeleteOutcome, ReplyError>(ReplyError::Malformed) <==> json_field(reply@, "file"@) is None,
        match json_field(reply@, "file"@) {
            None => true,
            Some(f) => if f.0 {
                outcome == Ok::<DeleteOutcome, ReplyError>(DeleteOutcome::Missing)
            } else {
                match (f.1, json_field(reply@, "user"@)) {
                    (Some(file), Some(u)) => match u.1 {
                        Some(user) => (outcome matches Ok(DeleteOutcome::Deleted { file: fv, user: uv })
                            && fv@ == file && uv@ == user),
                        None => outcome == Err::<DeleteOutcome, ReplyError>(ReplyError::NotText),
                    },
                    (None, _) => outcome == Err::<DeleteOutcome, ReplyError>(ReplyError::NotText),
                    _ => true,
                }
            },
        },
        json_field(reply@, "file"@) is Some ==> json_field(reply@, "user"@) is Some,
{
    let file = match read_json_field(reply, "file") {
        Err(_) => return Err(ReplyError::Malformed),
        Ok(f) => f,
    };
    let file = match file.optional_text() {
        Err(e) => return Err(e),
        Ok(None) => return Ok(DeleteOutcome::Missing),
        Ok(Some(t)) => t,
    };
    let user = match read_json_field(reply, "user") {
        Err(_) => return Err(ReplyError::Malformed),
        Ok(f) => f,
    };
    match user.required_text() {
        Ok(user) => Ok(DeleteOutcome::Deleted { file, user }),
        Err(e) => Err(e),
    }
}

/// What became of a request to share a file.
#[derive(Clone, Debug, PartialEq, Eq)]
pub enum ShareOutcome {
    /// No file has the key.
    Missing,
    /// The file can be fetched at `link`.
    Shared { link: String },
}

/// The answer to a share request: `None` where its `link` field is `null` or absent, else
/// the link.
pub open spec fn spec_share_outcome(reply: Seq<char>) -> Result<Option<Seq<char>>, ReplyError> {
    match json_field(reply, "link"@) {
        None => Err(ReplyError::Malformed),
        Some(f) => spec_optional_text(f),
    }
}

/// Reads the answer to a share request.
pub fn share_outcome(reply: &str) -> (outcome: Result<ShareOutcome, ReplyError>)
    ensures
        match outcome {
            Ok(ShareOutcome::Missing) => spec_share_outcome(reply@) == Ok::<Option<Seq<char>>, ReplyError>(None),
            Ok(ShareOutcome::Shared { link }) => spec_share_outcome(reply@) == Ok::<
                Option<Seq<char>>,
                ReplyError,
            >(Some(link@)),
            Err(e) => spec_share_outcome(reply@) == Err::<Option<Seq<char>>, ReplyError>(e),
        },
        match json_field(reply@, "link"@) {
            None => outcome == Err::<ShareOutcome, ReplyError>(ReplyError::Malformed),
            Some(f) => if f.0 {
                outcome == Ok::<ShareOutcome, ReplyError>(ShareOutcome::Missing)
            } else {
                match f.1 {
                    Some(t) => (outcome matches Ok(ShareOutcome::Shared { link }) && link@ == t),
                    None => outcome == Err::<ShareOutcome, ReplyError>(ReplyError::NotText),
                }
            },
        },
{
    let link = match read_json_field(reply, "link") {
        Err(_) => return Err(ReplyError::Malformed),
        Ok(f) => f,
    };
    match link.optional_text() {
        Ok(None) => Ok(ShareOutcome::Missing),
        Ok(Some(t)) => Ok(ShareOutcome::Shared { link: t }),
        Err(e) => Err(e),
    }
}

/// A share reply is read from its `link` field alone: a string there is the link, unchanged;
/// `null` (or no field) means no such file; anything else is no link; a reply that is no JSON
/// is malformed.
pub proof fn lemma_share_link_is_the_field(reply: Seq<char>)
    ensures
        json_field(reply, "link"@) is None ==> spec_share_outcome(reply) == Err::<
            Option<Seq<char>>,
            ReplyError,
        >(ReplyError::Malformed),
        json_field(reply, "link"@) matches Some(f) ==> (f.0 ==> spec_share_outcome(reply) == Ok::<
            Option<Seq<char>>,
            ReplyError,
        >(None)),
        json_field(reply, "link"@) matches Some(f) ==> (!f.0 && f.1 is Some ==> spec_share_outcome(reply)
            == Ok::<Option<Seq<char>>, ReplyError>(f.1)),
        json_field(reply, "link"@) matches Some(f) ==> (!f.0 && f.1 is None ==> spec_share_outcome(reply)
            == Err::<Option<Seq<char>>, ReplyError>(ReplyError::NotText)),
{
}

/// A deletion reply names the file from its `file` field and the account from its `user`
/// field, both unchanged; `null` in `file` means no such file.
pub proof fn lemma_delete_reads_file_then_user(reply: Seq<char>)
    ensures
        json_field(reply, "file"@) matches Some(f) ==> (f.0 ==> spec_delete_outcome(reply) == Ok::<
            Option<(Seq<char>, Seq<char>)>,
            ReplyError,
        >(None)),
        json_field(reply, "file"@) matches Some(f) ==> (!f.0 && f.1 is Some && json_field(reply, "user"@) is Some
            && json_field(reply, "user"@).unwrap().1 is Some ==> spec_delete_outcome(reply) == Ok::<
            Option<(Seq<char>, Seq<char>)>,
            ReplyError,
        >(Some((f.1.unwrap(), json_field(reply, "user"@).unwrap().1.unwrap())))),
        json_field(reply, "file"@) is None ==> spec_delete_outcome(reply) == Err::<
            Option<(Seq<char>, Seq<char>)>,
            ReplyError,
        >(ReplyError::Malformed),
{
}

/// The account name after a login is the JSON text of the reply's `user` field, unchanged;
/// `null` (or no field) gives no name.
pub proof fn lemma_login_user_is_the_field(reply: Seq<char>)
    ensures
        json_field(reply, "user"@) matches Some(f) ==> spec_login_user(reply) == Ok::<
            Option<Seq<char>>,
            ReplyError,
        >(if f.0 {
            None
        } else {
            Some(f.2)
        }),
        json_field(reply, "user"@) is None ==> spec_login_user(reply) == Err::<
            Option<Seq<char>>,
            ReplyError,
        >(ReplyError::Malformed),
{
}

} // verus!
