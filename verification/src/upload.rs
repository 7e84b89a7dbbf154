//! Preparing an upload: the name the file is sent under, its media type, and the progress
//! that the client shows while the request is on its way.
use vstd::prelude::*;

verus! {

// ---------------------------------------------------------------------------------------
// The name and type of the file
// ---------------------------------------------------------------------------------------

/// What regex makes of `haystack` when every match of `pattern` in it is replaced by
/// `replacement` (`Regex::new(pattern)`, then `replace_all`); `None` where `pattern` is no
/// valid regular expression.
pub uninterp spec fn regex_replace_all_result(pattern: Seq<char>, haystack: Seq<char>, replacement: Seq<char>) -> Option<Seq<char>>;

#[verifier::external_type_specification]
#[verifier::external_body]
pub struct ExRegexError(regex::Error);

/// What follows the last `/` of `s`; all of `s` where it holds no `/`.
pub open spec fn last_component(s: Seq<char>) -> Seq<char>
    decreases s.len(),
{
    if s.len() == 0 {
        s
    } else if s.last() == '/' {
        Seq::<char>::empty()
    } else {
        last_component(s.drop_last()).push(s.last())
    }
}

/// Calls regex: compiles `pattern` and replaces all its matches in `haystack`.
/// Claimed: the outcome is a function of the three texts. The pattern `.*/` compiles, and
/// with an empty replacement it removes, from a text without a line break, everything up to
/// and including the last `/` (`.` matches any character but `\n`; the leftmost match is
/// greedy and ends at the last `/`, and no `/` is left after it for another match).
#[verifier::external_body]
fn regex_replace_all(pattern: &str, haystack: &str, replacement: &str) -> (res: Result<String, regex::Error>)
    ensures
        res is Ok <==> regex_replace_all_result(pattern@, haystack@, replacement@) is Some,
        res matches Ok(s) ==> Some(s@) == regex_replace_all_result(pattern@, haystack@, replacement@),
        res is Err ==> pattern@ != ".*/"@,
        res matches Ok(s) ==> (pattern@ == ".*/"@ && replacement@ == ""@ && !haystack@.contains('\n')
            ==> s@ == last_component(haystack@)),
{
    let re = regex::Regex::new(pattern)?;
    Ok(re.replace_all(haystack, replacement).to_string())
}

/// The first media type that mime_guess finds for the extension of `path`
/// (`from_path(path).first()`); `None` where it knows none.
pub uninterp spec fn mime_first(path: Seq<char>) -> Option<Seq<char>>;

/// Calls mime_guess: guesses the media type of a file from its extension.
/// Claimed: the outcome is a function of the path (a fixed table); a path without any `.`
/// has no extension, so that no type is found.
#[verifier::external_body]
fn first_mime_type(path: &str) -> (mime: Option<String>)
    ensures
        mime.deep_view() == mime_first(path@),
        !path@.contains('.') ==> mime is None,
{
    match mime_guess::from_path(path).first() {
        Some(m) => Some(m.as_ref().to_string()),
        None => None,
    }
}

/// Why a file cannot be uploaded.
#[derive(Clone, Copy, Debug, PartialEq, Eq)]
pub enum UploadError {
    /// The path names a directory.
    IsDirectory,
    /// The pattern that strips the directories off the path does not compile.
    InvalidPattern,
    /// No media type is known for the file's extension.
    UnknownType,
}

/// What is sent with the file: the name it is stored under and its media type.
#[derive(Clone, Debug, PartialEq, Eq)]
pub struct UploadPlan {
    pub file_name: String,
    pub mime: String,
}

/// The name a file is stored under: the path with every run of characters that ends in
/// `/` (within a line) removed, that is the pattern `.*/` replaced by nothing.
pub open spec fn spec_upload_name(path: Seq<char>) -> Option<Seq<char>> {
    regex_replace_all_result(".*/"@, path, ""@)
}

/// The name and media type of the file at `path`, or why it cannot be uploaded.
pub open spec fn spec_prepare_upload(path: Seq<char>, is_dir: bool) -> Result<(Seq<char>, Seq<char>), UploadError> {
    if is_dir {
        Err(UploadError::IsDirectory)
    } else {
        match spec_upload_name(path) {
            None => Err(UploadError::InvalidPattern),
            Some(name) => match mime_first(path) {
                None => Err(UploadError::UnknownType),
                Some(mime) => Ok((name, mime)),
            },
        }
    }
}

/// What is sent, given the name the pattern left (`None` where it did not compile) and the
/// media type found (`None` where none is known).
pub fn upload_plan(file_name: Option<String>, mime: Option<String>) -> (plan: Result<UploadPlan, UploadError>)
    ensures
        match plan {
            Ok(p) => file_name == Some(p.file_name) && mime == Some(p.mime),
            Err(e) => e == (if file_name is None {
                UploadError::InvalidPattern
            } else {
                UploadError::UnknownType
            }) && (file_name is None || mime is None),
        },
{
    match file_name {
        None => Err(UploadError::InvalidPattern),
        Some(file_name) => match mime {
            None => Err(UploadError::UnknownType),
            Some(mime) => Ok(UploadPlan { file_name, mime }),
        },
    }
}

/// Decides what to send for the file at `path` (`is_dir` where the path names a directory).
/// A path without any `.` has no known type.
pub fn prepare_upload(path: &str, is_dir: bool) -> (plan: Result<UploadPlan, UploadError>)
    ensures
        match plan {
            Ok(p) => spec_prepare_upload(path@, is_dir) == Ok::<(Seq<char>, Seq<char>), UploadError>(
                (p.file_name@, p.mime@),
            ),
            Err(e) => spec_prepare_upload(path@, is_dir) == Err::<(Seq<char>, Seq<char>), UploadError>(e),
        },
        !is_dir && !path@.contains('.') && spec_upload_name(path@) is Some ==> plan == Err::<
            UploadPlan,
            UploadError,
        >(UploadError::UnknownType),
        spec_upload_name(path@) is Some,
        !is_dir ==> (plan is Err ==> plan == Err::<UploadPlan, UploadError>(UploadError::UnknownType)),
        !path@.contains('\n') ==> spec_upload_name(path@) == Some(last_component(path@)),
        !is_dir && !path@.contains('\n') ==> match plan {
            Ok(p) => p.file_name@ == last_component(path@),
            Err(e) => e == UploadError::UnknownType,
        },
        is_dir <==> plan == Err::<UploadPlan, UploadError>(UploadError::IsDirectory),
        !is_dir ==> (plan is Ok <==> mime_first(path@) is Some),
        plan matches Ok(p) ==> (Some(p.mime@) == mime_first(path@) && Some(p.file_name@)
            == regex_replace_all_result(".*/"@, path@, ""@)),
{
    let file_name = match regex_replace_all(".*/", path, "") {
        Ok(name) => Some(name),
        Err(_) => None,
    };
    if is_dir {
        return Err(UploadError::IsDirectory);
    }
    upload_plan(file_name, first_mime_type(path))
}

/// A file that is no directory is sent exactly where mime_guess knows a type for its path,
/// with that type, under the name the pattern `.*/` leaves of the path; a directory is never
/// sent.
pub proof fn lemma_upload_type_is_the_paths_type(path: Seq<char>, is_dir: bool)
    requires
        spec_upload_name(path) is Some,
    ensures
        is_dir ==> spec_prepare_upload(path, is_dir) == Err::<(Seq<char>, Seq<char>), UploadError>(
            UploadError::IsDirectory,
        ),
        !is_dir ==> (spec_prepare_upload(path, is_dir) is Ok <==> mime_first(path) is Some),
        !is_dir && mime_first(path) is Some ==> spec_prepare_upload(path, is_dir) == Ok::<
            (Seq<char>, Seq<char>),
            UploadError,
        >((regex_replace_all_result(".*/"@, path, ""@)->0, mime_first(path)->0)),
        !is_dir && mime_first(path) is None ==> spec_prepare_upload(path, is_dir) == Err::<
            (Seq<char>, Seq<char>),
            UploadError,
        >(UploadError::UnknownType),
{
}

/// The name a file is stored under holds no `/`, and is a suffix of the path.
pub proof fn lemma_last_component(s: Seq<char>)
    ensures
        !last_component(s).contains('/'),
        last_component(s).len() <= s.len(),
        last_component(s) =~= s.subrange(s.len() - last_component(s).len(), s.len() as int),
    decreases s.len(),
{
    if s.len() > 0 && s.last() != '/' {
        lemma_last_component(s.drop_last());
        let p = last_component(s.drop_last());
        assert forall|i: int| 0 <= i < p.push(s.last()).len() implies p.push(s.last())[i] != '/' by {
            if i < p.len() {
                assert(p[i] != '/');
            }
        }
    }
}

// ---------------------------------------------------------------------------------------
// Progress shown while the upload is under way
// ---------------------------------------------------------------------------------------

/// How many bytes the progress bar moves on at each tick.
pub const UPLOAD_STEP: u64 = 223211;

/// Where the bar stands after one tick from `position`: a step further, but not past the
/// total; it stays where it is once the total is reached.
pub open spec fn spec_tick(position: nat, total: nat) -> nat {
    if position < total {
        if position + UPLOAD_STEP < total {
            (position + UPLOAD_STEP) as nat
        } else {
            total
        }
    } else {
        position
    }
}

/// Where the bar stands after `k` ticks from the start.
pub open spec fn position_after(total: nat, k: nat) -> nat
    decreases k,
{
    if k == 0 {
        0
    } else {
        spec_tick(position_after(total, (k - 1) as nat), total)
    }
}

/// The progress bar of an upload: `position` bytes of `total` shown as sent.
#[derive(Clone, Copy, Debug, PartialEq, Eq)]
pub struct UploadTicker {
    pub position: u64,
    pub total: u64,
}

impl UploadTicker {
    /// The bar stands within its range.
    pub open spec fn wf(&self) -> bool {
        self.position <= self.total
    }

    /// A bar at zero for a file of `total` bytes.
    pub fn new(total: u64) -> (ticker: Self)
        ensures
            ticker.position == 0,
            ticker.total == total,
            ticker.wf(),
    {
        UploadTicker { position: 0, total }
    }

    /// One tick: while the bar is short of the total it moves on and returns where it now
    /// stands (the client then waits before the next tick); at the total it returns `None`.
    pub fn advance(&mut self) -> (moved: Option<u64>)
        requires
            old(self).wf(),
        ensures
            final(self).wf(),
            final(self).total == old(self).total,
            final(self).position == spec_tick(old(self).position as nat, old(self).total as nat),
            moved == (if old(self).position < old(self).total {
                Some(final(self).position)
            } else {
                None::<u64>
            }),
            old(self).position < old(self).total ==> final(self).position == (if old(self).total
                - old(self).position > UPLOAD_STEP {
                old(self).position + UPLOAD_STEP
            } else {
                old(self).total as int
            }),
            old(self).position >= old(self).total ==> final(self).position == old(self).position,
    {
        if self.position < self.total {
            if self.total - self.position > UPLOAD_STEP {
                self.position = self.position + UPLOAD_STEP;
            } else {
                self.position = self.total;
            }
            Some(self.position)
        } else {
            None
        }
    }
}

/// After `k` ticks the bar stands at `k` steps or at the total, whichever is less: it moves
/// on at every tick until the total is reached, so that an upload of `total` bytes takes the
/// least `k` with `k * UPLOAD_STEP >= total` ticks, and never passes the total.
pub proof fn lemma_ticks(total: nat, k: nat)
    ensures
        position_after(total, k) == (if k * UPLOAD_STEP < total {
            k * UPLOAD_STEP
        } else {
            total as int
        }),
        position_after(total, k) <= total,
        position_after(total, k) == total <==> k * UPLOAD_STEP >= total,
    decreases k,
{
    if k > 0 {
        lemma_ticks(total, (k - 1) as nat);
        assert(k * UPLOAD_STEP == (k - 1) * UPLOAD_STEP + UPLOAD_STEP);
    }
}

} // verus!
