//! What the client does about its saved account key when it signs up or logs in.
use vstd::prelude::*;
use crate::reply::LoginStatus;

verus! {

/// What a login does, once the server has answered the key check.
#[derive(Clone, Copy, Debug, PartialEq, Eq)]
pub enum LoginAction {
    /// The key is good and a key is saved already: it stays as it is.
    KeepSavedKey,
    /// The key is good and none is saved: it is written to the credentials file.
    SaveKey,
    /// The server knows no such key.
    RefuseKey,
    /// The server could not tell.
    ReportUnavailable,
}

/// The login step for the server's answer and whether a credentials file exists.
pub open spec fn spec_login_action(status: LoginStatus, credentials_exist: bool) -> LoginAction {
    match status {
        LoginStatus::Accepted => if credentials_exist {
            LoginAction::KeepSavedKey
        } else {
            LoginAction::SaveKey
        },
        LoginStatus::Rejected => LoginAction::RefuseKey,
        LoginStatus::Unavailable => LoginAction::ReportUnavailable,
    }
}

/// Decides the login step.
pub fn login_action(status: LoginStatus, credentials_exist: bool) -> (action: LoginAction)
    ensures
        action == spec_login_action(status, credentials_exist),
        status == LoginStatus::Rejected ==> action == LoginAction::RefuseKey,
        status == LoginStatus::Unavailable ==> action == LoginAction::ReportUnavailable,
        status == LoginStatus::Accepted ==> action == (if credentials_exist {
            LoginAction::KeepSavedKey
        } else {
            LoginAction::SaveKey
        }),
{
    match status {
        LoginStatus::Accepted => if credentials_exist {
            LoginAction::KeepSavedKey
        } else {
            LoginAction::SaveKey
        },
        LoginStatus::Rejected => LoginAction::RefuseKey,
        LoginStatus::Unavailable => LoginAction::ReportUnavailable,
    }
}

/// What a signup does.
#[derive(Clone, Copy, Debug, PartialEq, Eq)]
pub enum SignupAction {
    /// A key is saved already: no account is made.
    AlreadySignedUp,
    /// An account is asked for and its key written to the credentials file.
    Register,
}

/// The signup step, given whether a credentials file exists.
pub open spec fn spec_signup_action(credentials_exist: bool) -> SignupAction {
    if credentials_exist {
        SignupAction::AlreadySignedUp
    } else {
        SignupAction::Register
    }
}

/// Decides the signup step.
pub fn signup_action(credentials_exist: bool) -> (action: SignupAction)
    ensures
        action == spec_signup_action(credentials_exist),
        action == SignupAction::Register <==> !credentials_exist,
{
    if credentials_exist {
        SignupAction::AlreadySignedUp
    } else {
        SignupAction::Register
    }
}

/// A saved key is never replaced: where a credentials file exists, neither a login nor a
/// signup writes one. A login writes the key only where the server accepted it.
pub proof fn lemma_saved_key_kept(status: LoginStatus, credentials_exist: bool)
    ensures
        credentials_exist ==> spec_login_action(status, credentials_exist) != LoginAction::SaveKey,
        credentials_exist ==> spec_signup_action(credentials_exist) != SignupAction::Register,
        spec_login_action(status, credentials_exist) == LoginAction::SaveKey ==> status
            == LoginStatus::Accepted && !credentials_exist,
{
}

/// The server's answer decides the login: a rejected key is refused and an unanswered check
/// is reported, whether or not a key is saved; only an accepted key is kept or saved, kept
/// exactly where a key is saved already.
pub proof fn lemma_login_follows_the_server(status: LoginStatus, credentials_exist: bool)
    ensures
        status == LoginStatus::Rejected <==> spec_login_action(status, credentials_exist)
            == LoginAction::RefuseKey,
        status == LoginStatus::Unavailable <==> spec_login_action(status, credentials_exist)
            == LoginAction::ReportUnavailable,
        spec_login_action(status, credentials_exist) == LoginAction::KeepSavedKey <==> (status
            == LoginStatus::Accepted && credentials_exist),
        spec_login_action(status, credentials_exist) == LoginAction::SaveKey <==> (status
            == LoginStatus::Accepted && !credentials_exist),
        spec_signup_action(credentials_exist) == SignupAction::Register <==> !credentials_exist,
{
}

} // verus!
