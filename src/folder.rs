//! Folders: a folder of a known kind is identified by its kind, whatever
//! its label; any other folder by its name.

use vstd::prelude::*;

use crate::text::same_str;

verus! {

/// The kinds of folder every backend knows.
#[derive(Clone, Copy, Debug, PartialEq, Eq, Structural)]
pub enum FolderKind {
    Inbox,
    Sent,
    Drafts,
    Trash,
}

/// The canonical name of a folder kind.
pub open spec fn kind_name(k: FolderKind) -> Seq<char> {
    match k {
        FolderKind::Inbox => "INBOX"@,
        FolderKind::Sent => "Sent"@,
        FolderKind::Drafts => "Drafts"@,
        FolderKind::Trash => "Trash"@,
    }
}

/// A folder of a backend.
#[derive(Debug, PartialEq, Eq)]
pub struct Folder {
    /// The label the backend gives it.
    pub name: String,
    pub kind: Option<FolderKind>,
    /// The hierarchy delimiter.
    pub delim: String,
}

/// The name a folder is synchronized under: its kind's canonical name if
/// the kind is known, else its label.
pub open spec fn kind_or_name(f: Folder) -> Seq<char> {
    match f.kind {
        Some(k) => kind_name(k),
        None => f.name@,
    }
}

impl Folder {
    /// The name the folder is synchronized under.
    pub fn get_kind_or_name(&self) -> (r: String)
        ensures
            r@ == kind_or_name(*self),
    {
        match self.kind {
            Some(FolderKind::Inbox) => "INBOX".to_owned(),
            Some(FolderKind::Sent) => "Sent".to_owned(),
            Some(FolderKind::Drafts) => "Drafts".to_owned(),
            Some(FolderKind::Trash) => "Trash".to_owned(),
            None => self.name.clone(),
        }
    }

    /// Whether the two folders are the same folder: same kind when both
    /// kinds are known, else same synchronized name.
    pub fn same_folder(&self, other: &Folder) -> (r: bool)
        ensures
            r == (kind_or_name(*self) == kind_or_name(*other)),
    {
        let a = self.get_kind_or_name();
        let b = other.get_kind_or_name();
        same_str(a.as_str(), b.as_str())
    }
}

/// The names the folders are synchronized under, in order.
pub fn folder_names(folders: &Vec<Folder>) -> (r: Vec<String>)
    ensures
        r@.len() == folders@.len(),
        forall|i: int| 0 <= i < r@.len() ==> #[trigger] r@[i]@ == kind_or_name(folders@[i]),
{
    let mut r: Vec<String> = Vec::new();
    let mut i: usize = 0;
    while i < folders.len()
        invariant
            0 <= i <= folders.len(),
            r@.len() == i,
            forall|k: int| 0 <= k < i ==> #[trigger] r@[k]@ == kind_or_name(folders@[k]),
        decreases folders.len() - i,
    {
        r.push(folders[i].get_kind_or_name());
        i = i + 1;
    }
    r
}

} // verus!
