//! File sizes in the listing of uploads: bytes as the server sends them, shown with a unit.
use vstd::prelude::*;
use crate::text::{parse_u128, spec_decimal, spec_parse_u128};
use crate::types::UploadData;

verus! {

/// What byte-unit shows for `bytes`: `Byte::from_bytes(bytes).get_appropriate_unit(false)`,
/// written with `to_string`.
pub uninterp spec fn byte_unit_text(bytes: u128) -> Seq<char>;

/// Calls byte-unit: picks the decimal (SI) unit that suits `bytes` and writes the size in it.
/// Claimed: the result is a function of `bytes` alone; at most 1000 bytes stay in the unit
/// `B` and are written as the plain number (`{:.0} B` of a float that holds it exactly).
/// The text for larger sizes, written from a float with two decimals, is left unsaid.
#[verifier::external_body]
fn appropriate_unit_text(bytes: u128) -> (text: String)
    ensures
        text@ == byte_unit_text(bytes),
        bytes <= 1000 ==> text@ == spec_decimal(bytes as nat) + " B"@,
{
    byte_unit::Byte::from_bytes(bytes).get_appropriate_unit(false).to_string()
}

/// The size that the listing shows for a size as the server sent it, or `None` where the
/// text is no number of bytes (the listing then fails).
pub open spec fn spec_humanize_size(size: Seq<char>) -> Option<Seq<char>> {
    match spec_parse_u128(size) {
        Some(n) => Some(byte_unit_text(n)),
        None => None,
    }
}

/// The size shown for `size`; `None` where `size` is no decimal number of bytes.
/// A size of at most 1000 bytes keeps its number and gains the unit `B`.
pub fn humanize_size(size: &str) -> (shown: Option<String>)
    ensures
        match shown {
            Some(t) => spec_humanize_size(size@) == Some(t@),
            None => spec_humanize_size(size@) is None,
        },
        match spec_parse_u128(size@) {
            Some(n) => n <= 1000 ==> (shown matches Some(t) && t@ == spec_decimal(n as nat) + " B"@),
            None => true,
        },
        match spec_parse_u128(size@) {
            Some(n) => shown is Some && shown->0@ == byte_unit_text(n),
            None => shown is None,
        },
{
    match parse_u128(size) {
        Some(n) => Some(appropriate_unit_text(n)),
        None => None,
    }
}

/// The listing shows, for a size it can read, byte-unit's text for exactly the number of
/// bytes the server sent; a size it cannot read is shown as nothing.
pub proof fn lemma_shown_size_is_the_parsed_size(size: Seq<char>)
    ensures
        spec_parse_u128(size) is Some ==> spec_humanize_size(size) == Some(
            byte_unit_text(spec_parse_u128(size)->0),
        ),
        spec_parse_u128(size) is None ==> spec_humanize_size(size) is None,
        forall|n: u128| #[trigger] spec_humanize_size(spec_decimal(n as nat)) == Some(byte_unit_text(n)),
{
    assert forall|n: u128| #[trigger] spec_humanize_size(spec_decimal(n as nat)) == Some(byte_unit_text(n)) by {
        crate::text::lemma_parse_decimal(n);
    }
}

/// Every upload's size is a decimal number of bytes.
pub open spec fn sizes_readable(uploads: Seq<UploadData>) -> bool {
    forall|i: int| 0 <= i < uploads.len() ==> (#[trigger] spec_parse_u128(uploads[i].filesize@)) is Some
}

/// Rewrites each upload's size as the listing shows it; nothing else changes.
pub fn humanize_uploads(uploads: &mut Vec<UploadData>)
    requires
        sizes_readable(old(uploads)@),
    ensures
        final(uploads)@.len() == old(uploads)@.len(),
        forall|i: int|
            0 <= i < old(uploads)@.len() ==> {
                let before = #[trigger] old(uploads)@[i];
                let after = final(uploads)@[i];
                &&& after.filename == before.filename
                &&& after.content == before.content
                &&& after.filekey == before.filekey
                &&& spec_humanize_size(before.filesize@) == Some(after.filesize@)
                &&& after.filesize@ == byte_unit_text(spec_parse_u128(before.filesize@)->0)
            },
{
    let n = uploads.len();
    let mut i: usize = 0;
    while i < n
        invariant
            n == uploads@.len(),
            n == old(uploads)@.len(),
            i <= n,
            sizes_readable(old(uploads)@),
            forall|j: int| i <= j < n ==> #[trigger] uploads@[j] == old(uploads)@[j],
            forall|j: int|
                0 <= j < i ==> {
                    let before = #[trigger] old(uploads)@[j];
                    let after = uploads@[j];
                    &&& after.filename == before.filename
                    &&& after.content == before.content
                    &&& after.filekey == before.filekey
                    &&& spec_humanize_size(before.filesize@) == Some(after.filesize@)
                    &&& after.filesize@ == byte_unit_text(spec_parse_u128(before.filesize@)->0)
                },
        decreases n - i,
    {
        assert(spec_parse_u128(old(uploads)@[i as int].filesize@) is Some);
        let shown = humanize_size(uploads[i].filesize.as_str());
        let filesize = match shown {
            Some(t) => t,
            None => uploads[i].filesize.clone(),
        };
        let entry = UploadData {
            filename: uploads[i].filename.clone(),
            content: uploads[i].content.clone(),
            filesize,
            filekey: uploads[i].filekey.clone(),
        };
        uploads.set(i, entry);
        i = i + 1;
    }
}

} // verus!
