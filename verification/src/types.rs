//! The records that the drivogram server sends back.
use vstd::prelude::*;

verus! {

/// One uploaded file, as the server lists it.
#[derive(Clone, Debug, PartialEq, Eq)]
pub struct UploadData {
    pub filename: String,
    pub content: String,
    /// The size; the server sends a decimal number of bytes, the listing shows it with a unit.
    pub filesize: String,
    pub filekey: String,
}

/// The server's answer to a request for the list of uploads.
#[derive(Clone, Debug, PartialEq, Eq)]
pub struct UploadResponse {
    pub user: String,
    pub uploads: Vec<UploadData>,
}

/// The server's answer to an upload.
#[derive(Clone, Debug, PartialEq, Eq)]
pub struct UploadedResponse {
    pub msg: String,
    pub file_key: String,
    pub user: String,
}

/// The server's answer to a deletion, where the file existed.
#[derive(Clone, Debug, PartialEq, Eq)]
pub struct DeleteResponse {
    pub message: String,
    pub file: String,
    pub user: String,
}

/// The server's answer to a signup: the key that identifies the new account.
#[derive(Clone, Debug, PartialEq, Eq)]
pub struct SignupKey {
    pub x_api_key: String,
}

} // verus!
