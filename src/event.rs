//! Progress events of a sync, in the order a run emits them.

use vstd::prelude::*;

use crate::envelope::EmailSyncHunk;
use crate::folder_patch::FolderSyncHunk;

verus! {

/// A progress event of a sync.
#[derive(Debug)]
pub enum SyncEvent {
    /// The envelopes of a folder listed from the left cache, and how many.
    ListedLeftCachedEnvelopes(String, usize),
    ListedLeftEnvelopes(String, usize),
    ListedRightCachedEnvelopes(String, usize),
    ListedRightEnvelopes(String, usize),
    /// The folder patches were built; how many hunks each folder owes.
    GeneratedFolderPatch(Vec<(String, usize)>),
    /// A folder hunk is about to run.
    ApplyFolderHunk(FolderSyncHunk),
    /// A folder hunk ran, successfully or not.
    ProcessedFolderHunk(FolderSyncHunk),
    /// The envelope patch of a folder was built, with its number of hunks.
    GeneratedEmailPatch(String, usize),
    /// An email hunk ran, successfully or not.
    ProcessedEmailHunk(EmailSyncHunk),
    ProcessedAllEmailHunks,
}

} // verus!
