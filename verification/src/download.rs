//! Downloading a file: the name it is saved under and the progress of the transfer.
use vstd::prelude::*;
use vstd::string::StringExecFns;

verus! {

/// The name the file is saved under: the `x-file-name` header of the answer, where it is
/// present and readable as text, else `0`.
pub fn download_file_name(header: Option<&str>) -> (name: String)
    ensures
        name@ == match header {
            Some(h) => h@,
            None => "0"@,
        },
{
    match header {
        Some(h) => String::from_str(h),
        None => String::from_str("0"),
    }
}

/// The size of the download as the progress bar counts it: the answer's content length,
/// where it is given and fits in a `usize`; `None` otherwise (the download then fails).
pub fn download_total(content_length: Option<u64>) -> (total: Option<usize>)
    ensures
        total == match content_length {
            Some(n) => if n <= usize::MAX {
                Some(n as usize)
            } else {
                None::<usize>
            },
            None => None::<usize>,
        },
{
    match content_length {
        Some(n) => if n <= usize::MAX as u64 {
            Some(n as usize)
        } else {
            None
        },
        None => None,
    }
}

/// The progress of a download: `downloaded` bytes received of `total`.
#[derive(Clone, Copy, Debug, PartialEq, Eq)]
pub struct DownloadProgress {
    pub total: usize,
    pub downloaded: usize,
}

impl DownloadProgress {
    /// Nothing received yet of a download of `total` bytes.
    pub fn new(total: usize) -> (progress: Self)
        ensures
            progress.total == total,
            progress.downloaded == 0,
    {
        DownloadProgress { total, downloaded: 0 }
    }

    /// Counts a chunk of `len` bytes as received; returns the count to show.
    pub fn record(&mut self, len: usize) -> (shown: usize)
        requires
            old(self).downloaded + len <= usize::MAX,
        ensures
            final(self).total == old(self).total,
            final(self).downloaded == old(self).downloaded + len,
            shown == final(self).downloaded,
    {
        self.downloaded = self.downloaded + len;
        self.downloaded
    }
}

/// The line shown when the download is done.
pub fn download_done_message(name: &str) -> (message: String)
    ensures
        message@ == "Downloaded "@ + name@ + " Successfully to your Current directory!"@,
{
    let mut message = String::from_str("Downloaded ");
    message.append(name);
    message.append(" Successfully to your Current directory!");
    message
}

} // verus!
