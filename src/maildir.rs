//! Maildir folder naming and envelope pagination.

use vstd::prelude::*;

use crate::text::{opt_string_view, same_str};

verus! {

/// The percent-encoding of `s`.
pub uninterp spec fn url_encoded(s: Seq<char>) -> Seq<char>;

/// The percent-decoding of `s`; none when it is not valid UTF-8 once
/// decoded.
pub uninterp spec fn url_decoded(s: Seq<char>) -> Option<Seq<char>>;

/// Relies on urlencoding's `encode`: percent-encodes every byte but ASCII
/// letters, digits and `-._~`.
#[verifier::external_body]
fn url_encode(s: &str) -> (r: String)
    ensures
        r@ == url_encoded(s@),
{
    urlencoding::encode(s).into_owned()
}

/// Relies on urlencoding's `decode`: percent-decodes, failing when the
/// result is not UTF-8.
#[verifier::external_body]
fn url_decode(s: &str) -> (r: Option<String>)
    ensures
        match r {
            Some(d) => url_decoded(s@) == Some(d@),
            None => url_decoded(s@) is None,
        },
{
    urlencoding::decode(s).ok().map(|d| d.into_owned())
}

/// The directory name that stores `folder`.
pub fn encode_folder(folder: &str) -> (r: String)
    ensures
        r@ == url_encoded(folder@),
{
    url_encode(folder)
}

/// The folder a directory name stores: its decoding, or the name as it
/// is when it does not decode.
pub open spec fn decoded_folder(dir: Seq<char>) -> Seq<char> {
    match url_decoded(dir) {
        Some(d) => d,
        None => dir,
    }
}

/// The folder a directory name stores: its decoding, or the name as it
/// is when it does not decode.
pub fn decode_folder(dir: &str) -> (r: String)
    ensures
        r@ == decoded_folder(dir@),
{
    match url_decode(dir) {
        Some(d) => d,
        None => dir.to_owned(),
    }
}

/// The path, relative to the Maildir root, of the directory holding
/// `folder`: `cur` for the inbox (`INBOX`), else `.` followed by its encoded name.
pub fn folder_path(folder: &str) -> (r: String)
    ensures
        r@ == if folder@ == "INBOX"@ {
            "cur"@
        } else {
            "."@ + url_encoded(folder@)
        },
{
    if same_str(folder, "INBOX") {
        "cur".to_owned()
    } else {
        let mut r = ".".to_owned();
        let e = encode_folder(folder);
        r.append(e.as_str());
        r
    }
}

/// The folder a Maildir subdirectory named `dir` holds: its name without
/// the leading `.`, decoded; none for a name shorter than two characters
/// (an error) or for the `notmuch` database directory (skipped).
pub open spec fn subdir_folder(dir: Seq<char>) -> Option<Seq<char>> {
    if dir.len() < 2 || dir.skip(1) == "notmuch"@ {
        None
    } else {
        Some(
            match url_decoded(dir.skip(1)) {
                Some(d) => d,
                None => dir.skip(1),
            },
        )
    }
}

/// The folder a Maildir subdirectory named `dir` holds, if any.
pub fn subdir_folder_name(dir: &str) -> (r: Option<String>)
    ensures
        opt_string_view(r) == subdir_folder(dir@),
{
    let n = dir.unicode_len();
    if n < 2 {
        return None;
    }
    let name = dir.substring_char(1, n);
    assert(name@ =~= dir@.skip(1));
    if same_str(name, "notmuch") {
        return None;
    }
    Some(decode_folder(name))
}

/// Errors of pagination.
#[derive(Clone, Copy, Debug, PartialEq, Eq, Structural)]
pub enum PageError {
    /// The page starts past the last envelope; holds the 1-based index
    /// of its first envelope.
    OutOfBounds(usize),
    /// The page's first index, counted from one, does not fit in a
    /// machine word.
    TooLarge,
}

/// The index range `[begin, end)` of page `page` of `page_size` envelopes
/// among `len`; page size 0 means all envelopes.
pub fn page_range(len: usize, page: usize, page_size: usize) -> (r: Result<(usize, usize), PageError>)
    ensures
        page * page_size >= usize::MAX ==> r == Err::<(usize, usize), PageError>(PageError::TooLarge),
        page * page_size < usize::MAX && page * page_size > len ==> r == Err::<
            (usize, usize),
            PageError,
        >(PageError::OutOfBounds((page * page_size + 1) as usize)),
        page * page_size < usize::MAX && page * page_size <= len ==> r == Ok::<(usize, usize), PageError>(
            (
                (page * page_size) as usize,
                if page_size == 0 || page * page_size + page_size > len {
                    len
                } else {
                    (page * page_size + page_size) as usize
                },
            ),
        ),
{
    let begin = match page.checked_mul(page_size) {
        Some(b) => b,
        None => return Err(PageError::TooLarge),
    };
    if begin == usize::MAX {
        return Err(PageError::TooLarge);
    }
    assert(begin == page * page_size);
    if begin > len {
        return Err(PageError::OutOfBounds(begin + 1));
    }
    let end = if page_size == 0 || page_size > len - begin {
        len
    } else {
        begin + page_size
    };
    Ok((begin, end))
}

/// How a message is deleted from a folder.
#[derive(Clone, Copy, Debug, PartialEq, Eq, Structural)]
pub enum DeleteAction {
    /// Mark it deleted where it stands (it is in the trash already).
    FlagDeleted,
    /// Move it to the trash folder.
    MoveToTrash,
}

/// How to delete a message of `folder` when the trash folder is `trash`.
pub fn delete_action(folder: &str, trash: &str) -> (r: DeleteAction)
    ensures
        r == if folder@ == trash@ {
            DeleteAction::FlagDeleted
        } else {
            DeleteAction::MoveToTrash
        },
{
    if same_str(folder, trash) {
        DeleteAction::FlagDeleted
    } else {
        DeleteAction::MoveToTrash
    }
}

} // verus!
