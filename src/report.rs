//! Applying patches: the work each hunk asks of a backend or cache, and
//! the report of every hunk's outcome. Performing the work is left to the
//! caller, which hands each outcome back.

use vstd::prelude::*;

use crate::envelope::{email_hunks_view, EmailHunkView, EmailSyncHunk};
use crate::folder_patch::{
    build_patch, folder_patch_of, has_key, has_name, hunks_view, keys_unique, FolderOp,
    FolderSyncHunk, FolderSyncPatches, FoldersName,
};
use crate::policy::{admits, FolderSyncStrategy};
use crate::maildir::{decode_folder, decoded_folder};
use crate::sync::SyncDestination;

verus! {

/// A change to the folder cache of a side.
#[derive(Debug, PartialEq, Eq)]
pub enum FolderSyncCacheHunk {
    Insert(String, SyncDestination),
    Delete(String, SyncDestination),
}

impl View for FolderSyncCacheHunk {
    type V = (bool, Seq<char>, SyncDestination);

    /// Whether it inserts, the folder, the side.
    open spec fn view(&self) -> (bool, Seq<char>, SyncDestination) {
        match self {
            FolderSyncCacheHunk::Insert(f, s) => (true, f@, *s),
            FolderSyncCacheHunk::Delete(f, s) => (false, f@, *s),
        }
    }
}

/// The cache change a folder hunk stands for, if it is a cache hunk.
pub open spec fn cache_hunk_of(h: (FolderOp, Seq<char>, SyncDestination)) -> Option<(bool, Seq<char>, SyncDestination)> {
    match h.0 {
        FolderOp::Cache => Some((true, h.1, h.2)),
        FolderOp::Uncache => Some((false, h.1, h.2)),
        _ => None,
    }
}

/// The work a folder hunk asks for.
#[derive(Debug)]
pub enum FolderHunkWork {
    /// Record a change in the folder cache (applied in one batch once all
    /// hunks ran).
    Cache(FolderSyncCacheHunk),
    /// Create the folder on the backend of the side.
    AddFolder(String, SyncDestination),
    /// Delete the folder on the backend of the side.
    DeleteFolder(String, SyncDestination),
}

/// Whether `w` is the work folder hunk `h` asks for.
pub open spec fn is_work_of(w: FolderHunkWork, h: (FolderOp, Seq<char>, SyncDestination)) -> bool {
    match w {
        FolderHunkWork::Cache(c) => cache_hunk_of(h) == Some(c@),
        FolderHunkWork::AddFolder(f, s) => h == (FolderOp::Create, f@, s),
        FolderHunkWork::DeleteFolder(f, s) => h == (FolderOp::Delete, f@, s),
    }
}

/// The work folder hunk `h` asks for.
pub fn folder_hunk_work(h: &FolderSyncHunk) -> (w: FolderHunkWork)
    ensures
        is_work_of(w, h@),
{
    match h {
        FolderSyncHunk::Cache(f, s) => FolderHunkWork::Cache(FolderSyncCacheHunk::Insert(f.clone(), *s)),
        FolderSyncHunk::Uncache(f, s) => FolderHunkWork::Cache(
            FolderSyncCacheHunk::Delete(f.clone(), *s),
        ),
        FolderSyncHunk::Create(f, s) => FolderHunkWork::AddFolder(f.clone(), *s),
        FolderSyncHunk::Delete(f, s) => FolderHunkWork::DeleteFolder(f.clone(), *s),
    }
}

/// The outcome of every folder hunk, and the cache changes owed by the
/// hunks that succeeded.
#[derive(Debug)]
pub struct FolderSyncReport {
    /// Each hunk with the error it met, if any.
    pub patch: Vec<(FolderSyncHunk, Option<String>)>,
    /// The cache changes of the cache hunks that succeeded.
    pub cache_patch: Vec<FolderSyncCacheHunk>,
    /// The error met while writing the cache changes, if any.
    pub cache_error: Option<String>,
    /// The folders the patches were about.
    pub names: Vec<String>,
}

/// The view of a report's hunk list: each hunk and whether it succeeded.
pub open spec fn outcomes_view(v: Seq<(FolderSyncHunk, Option<String>)>) -> Seq<
    ((FolderOp, Seq<char>, SyncDestination), bool),
> {
    v.map_values(|e: (FolderSyncHunk, Option<String>)| (e.0@, e.1 is None))
}

/// The view of a list of cache changes.
pub open spec fn cache_hunks_view(v: Seq<FolderSyncCacheHunk>) -> Seq<(bool, Seq<char>, SyncDestination)> {
    v.map_values(|c: FolderSyncCacheHunk| c@)
}

/// All the hunks of `p`, folder after folder, each in apply order.
pub open spec fn flatten_patches(p: Seq<(String, Vec<FolderSyncHunk>)>) -> Seq<
    (FolderOp, Seq<char>, SyncDestination),
>
    decreases p.len(),
{
    if p.len() == 0 {
        seq![]
    } else {
        flatten_patches(p.drop_last()) + hunks_view(p.last().1@)
    }
}

/// The views of a list of names.
pub open spec fn names_view(v: Seq<String>) -> Seq<Seq<char>> {
    v.map_values(|s: String| s@)
}

/// The folders the patches `p` are about, decoded from their Maildir
/// names, in patch order.
pub open spec fn patch_folders(p: Seq<(String, Vec<FolderSyncHunk>)>) -> Seq<Seq<char>> {
    p.map_values(|e: (String, Vec<FolderSyncHunk>)| decoded_folder(e.0@))
}

/// The folders the patches are about, decoded from their Maildir names,
/// in patch order.
pub fn patch_names(patches: &FolderSyncPatches) -> (r: Vec<String>)
    ensures
        names_view(r@) == patch_folders(patches@),
{
    let mut r: Vec<String> = Vec::new();
    let mut i: usize = 0;
    while i < patches.len()
        invariant
            0 <= i <= patches.len(),
            names_view(r@) == patch_folders(patches@.take(i as int)),
        decreases patches.len() - i,
    {
        let ghost r0 = r@;
        let d = decode_folder(patches[i].0.as_str());
        r.push(d);
        assert(names_view(r@) =~= names_view(r0).push(d@));
        assert(patch_folders(patches@.take(i + 1)) =~= patch_folders(patches@.take(i as int)).push(
            decoded_folder(patches@[i as int].0@),
        ));
        i = i + 1;
    }
    assert(patches@.take(i as int) =~= patches@);
    r
}

impl FolderSyncReport {
    /// An empty report.
    pub fn new() -> (r: FolderSyncReport)
        ensures
            r.patch@.len() == 0,
            r.cache_patch@.len() == 0,
            r.cache_error is None,
            r.names@.len() == 0,
    {
        FolderSyncReport {
            patch: Vec::new(),
            cache_patch: Vec::new(),
            cache_error: None,
            names: Vec::new(),
        }
    }

    /// Records the outcome of `hunk`: `error` is none when it succeeded.
    /// A cache hunk that succeeded adds its change to the cache patch.
    pub fn record(&mut self, hunk: FolderSyncHunk, error: Option<String>)
        ensures
            outcomes_view(final(self).patch@) == outcomes_view(old(self).patch@).push(
                (hunk@, error is None),
            ),
            cache_hunks_view(final(self).cache_patch@) == if error is None && cache_hunk_of(
                hunk@,
            ) is Some {
                cache_hunks_view(old(self).cache_patch@).push(cache_hunk_of(hunk@)->Some_0)
            } else {
                cache_hunks_view(old(self).cache_patch@)
            },
            final(self).patch@ == old(self).patch@.push((hunk, error)),
            final(self).cache_error == old(self).cache_error,
            final(self).names == old(self).names,
    {
        let ghost p0 = self.patch@;
        let ghost c0 = self.cache_patch@;
        let ghost hv = hunk@;
        let ok = error.is_none();
        if ok {
            match folder_hunk_work(&hunk) {
                FolderHunkWork::Cache(c) => {
                    self.cache_patch.push(c);
                    assert(cache_hunks_view(self.cache_patch@) =~= cache_hunks_view(c0).push(
                        cache_hunk_of(hv)->Some_0,
                    ));
                },
                _ => {},
            }
        }
        self.patch.push((hunk, error));
        assert(outcomes_view(self.patch@) =~= outcomes_view(p0).push((hv, ok)));
    }

    /// The report of a dry run: every hunk of `patches`, folder after
    /// folder, reported as a success, no cache change, and the folders
    /// of the patches.
    pub fn dry_run(patches: &FolderSyncPatches) -> (r: FolderSyncReport)
        ensures
            outcomes_view(r.patch@) == flatten_patches(patches@).map_values(
                |h: (FolderOp, Seq<char>, SyncDestination)| (h, true),
            ),
            r.cache_patch@.len() == 0,
            r.cache_error is None,
            names_view(r.names@) == patch_folders(patches@),
    {
        let mut r = FolderSyncReport::new();
        r.names = patch_names(patches);
        let mut i: usize = 0;
        while i < patches.len()
            invariant
                0 <= i <= patches.len(),
                outcomes_view(r.patch@) == flatten_patches(patches@.take(i as int)).map_values(
                    |h: (FolderOp, Seq<char>, SyncDestination)| (h, true),
                ),
                r.cache_patch@.len() == 0,
                r.cache_error is None,
                names_view(r.names@) == patch_folders(patches@),
            decreases patches.len() - i,
        {
            let hunks = &patches[i].1;
            let ghost before = flatten_patches(patches@.take(i as int));
            let mut k: usize = 0;
            while k < hunks.len()
                invariant
                    0 <= k <= hunks.len(),
                    hunks == &patches@[i as int].1,
                    outcomes_view(r.patch@) == (before + hunks_view(hunks@.take(k as int))).map_values(
                        |h: (FolderOp, Seq<char>, SyncDestination)| (h, true),
                    ),
                    r.cache_patch@.len() == 0,
                    r.cache_error is None,
                    names_view(r.names@) == patch_folders(patches@),
                decreases hunks.len() - k,
            {
                let ghost p0 = r.patch@;
                let h = hunks[k].clone_hunk();
                let ghost hv = h@;
                r.patch.push((h, None));
                assert(hunks_view(hunks@.take(k + 1)) =~= hunks_view(hunks@.take(k as int)).push(
                    hv,
                ));
                assert(outcomes_view(r.patch@) =~= outcomes_view(p0).push((hv, true)));
                assert(outcomes_view(r.patch@) =~= (before + hunks_view(
                    hunks@.take(k + 1),
                )).map_values(|h: (FolderOp, Seq<char>, SyncDestination)| (h, true)));
                k = k + 1;
            }
            assert(hunks@.take(k as int) =~= hunks@);
            assert(patches@.take(i + 1).drop_last() =~= patches@.take(i as int));
            assert(flatten_patches(patches@.take(i + 1)) == before + hunks_view(hunks@));
            i = i + 1;
        }
        assert(patches@.take(i as int) =~= patches@);
        r
    }
}

/// The outcome of every email hunk.
#[derive(Debug)]
pub struct EmailSyncReport {
    /// Each hunk with the error it met, if any.
    pub patch: Vec<(EmailSyncHunk, Option<String>)>,
}

/// The view of an email report's hunk list: each hunk and whether it
/// succeeded.
pub open spec fn email_outcomes_view(v: Seq<(EmailSyncHunk, Option<String>)>) -> Seq<
    (EmailHunkView, bool),
> {
    v.map_values(|e: (EmailSyncHunk, Option<String>)| (e.0@, e.1 is None))
}

impl EmailSyncReport {
    /// An empty report.
    pub fn new() -> (r: EmailSyncReport)
        ensures
            r.patch@.len() == 0,
    {
        EmailSyncReport { patch: Vec::new() }
    }

    /// Records the outcome of `hunk`: `error` is none when it succeeded.
    pub fn record(&mut self, hunk: EmailSyncHunk, error: Option<String>)
        ensures
            final(self).patch@ == old(self).patch@.push((hunk, error)),
            email_outcomes_view(final(self).patch@) == email_outcomes_view(old(self).patch@).push(
                (hunk@, error is None),
            ),
    {
        let ghost p0 = self.patch@;
        let ghost hv = hunk@;
        let ok = error.is_none();
        self.patch.push((hunk, error));
        assert(email_outcomes_view(self.patch@) =~= email_outcomes_view(p0).push((hv, ok)));
    }

    /// The report of a dry run: every hunk reported as a success.
    pub fn dry_run(hunks: &Vec<EmailSyncHunk>) -> (r: EmailSyncReport)
        ensures
            email_outcomes_view(r.patch@) == email_hunks_view(hunks@).map_values(
                |h: EmailHunkView| (h, true),
            ),
    {
        let mut r = EmailSyncReport::new();
        let mut k: usize = 0;
        while k < hunks.len()
            invariant
                0 <= k <= hunks.len(),
                email_outcomes_view(r.patch@) == email_hunks_view(hunks@.take(k as int)).map_values(
                    |h: EmailHunkView| (h, true),
                ),
            decreases hunks.len() - k,
        {
            let ghost p0 = r.patch@;
            let h = hunks[k].duplicate();
            let ghost hv = h@;
            r.patch.push((h, None));
            assert(email_outcomes_view(r.patch@) =~= email_outcomes_view(p0).push((hv, true)));
            assert(email_outcomes_view(r.patch@) =~= email_hunks_view(hunks@.take(k + 1)).map_values(
                |h: EmailHunkView| (h, true),
            ));
            k = k + 1;
        }
        assert(hunks@.take(k as int) =~= hunks@);
        r
    }
}

/// `p` is exactly the folder patch of the four folder name lists under
/// strategy `s`: one entry per folder the strategy admits and some list
/// names, holding that folder's table row.
pub open spec fn is_strategy_patches(
    p: Seq<(String, Vec<FolderSyncHunk>)>,
    s: &FolderSyncStrategy,
    lc: Seq<String>,
    l: Seq<String>,
    rc: Seq<String>,
    r: Seq<String>,
) -> bool {
    &&& keys_unique(p)
    &&& forall|f: Seq<char>|
        #![trigger has_key(p, f)]
        has_key(p, f) <==> (admits(s, f) && (has_name(lc, f) || has_name(l, f) || has_name(rc, f)
            || has_name(r, f)))
    &&& forall|i: int|
        0 <= i < p.len() ==> hunks_view(#[trigger] p[i].1@) == folder_patch_of(p[i].0@, lc, l, rc, r)
}

/// The hunks owed to folder `f` by patches `p`, if `p` names it.
pub open spec fn patch_for(p: Seq<(String, Vec<FolderSyncHunk>)>, f: Seq<char>) -> Option<
    Seq<(FolderOp, Seq<char>, SyncDestination)>,
> {
    if has_key(p, f) {
        Some(hunks_view(p[choose|i: int| 0 <= i < p.len() && #[trigger] p[i].0@ == f].1@))
    } else {
        None
    }
}

/// A dry run builds the same hunks as a real run: two managers that differ
/// only in their dry-run flag build, from the same folder lists, patches
/// that name the same folders with the same hunks.
pub proof fn lemma_dry_run_same_patches(
    dry: &FolderSyncPatchManager,
    live: &FolderSyncPatchManager,
    p_dry: FolderSyncPatches,
    p_live: FolderSyncPatches,
    lc: Seq<String>,
    l: Seq<String>,
    rc: Seq<String>,
    r: Seq<String>,
)
    requires
        dry.strategy == live.strategy,
        is_strategy_patches(p_dry@, &dry.strategy, lc, l, rc, r),
        is_strategy_patches(p_live@, &live.strategy, lc, l, rc, r),
    ensures
        forall|f: Seq<char>| #[trigger] patch_for(p_dry@, f) == patch_for(p_live@, f),
{
    assert forall|f: Seq<char>| #[trigger] patch_for(p_dry@, f) == patch_for(p_live@, f) by {
        if has_key(p_dry@, f) {
            assert(has_key(p_live@, f));
            let i = choose|i: int| 0 <= i < p_dry@.len() && #[trigger] p_dry@[i].0@ == f;
            let j = choose|j: int| 0 <= j < p_live@.len() && #[trigger] p_live@[j].0@ == f;
            assert(hunks_view(p_dry@[i].1@) == folder_patch_of(f, lc, l, rc, r));
            assert(hunks_view(p_live@[j].1@) == folder_patch_of(f, lc, l, rc, r));
        } else {
            assert(!has_key(p_live@, f));
        }
    }
}

/// Builds folder patches under a strategy.
#[derive(Debug)]
pub struct FolderSyncPatchManager {
    pub strategy: FolderSyncStrategy,
    pub dry_run: bool,
}

impl FolderSyncPatchManager {
    /// A manager following `strategy`; with `dry_run`, applying a patch
    /// changes nothing.
    pub fn new(strategy: FolderSyncStrategy, dry_run: bool) -> (r: FolderSyncPatchManager)
        ensures
            r.strategy == strategy,
            r.dry_run == dry_run,
    {
        FolderSyncPatchManager { strategy, dry_run }
    }

    /// The work to perform for hunk `h`: none in a dry run, which changes
    /// nothing and reports every hunk as done.
    pub fn hunk_work(&self, h: &FolderSyncHunk) -> (w: Option<FolderHunkWork>)
        ensures
            self.dry_run ==> w is None,
            !self.dry_run ==> w is Some && is_work_of(w->Some_0, h@),
    {
        if self.dry_run {
            None
        } else {
            Some(folder_hunk_work(h))
        }
    }

    /// The folder patches of the four folder name lists (left cache, left,
    /// right cache, right), restricted to the folders the strategy admits.
    pub fn build_patches(
        &self,
        local_cache: &FoldersName,
        local: &FoldersName,
        remote_cache: &FoldersName,
        remote: &FoldersName,
    ) -> (p: FolderSyncPatches)
        ensures
            is_strategy_patches(p@, &self.strategy, local_cache@, local@, remote_cache@, remote@),
    {
        let lc = self.strategy.filter_folders(local_cache);
        let l = self.strategy.filter_folders(local);
        let rc = self.strategy.filter_folders(remote_cache);
        let r = self.strategy.filter_folders(remote);
        let ghost (lcv, lv, rcv, rv) = (lc@, l@, rc@, r@);
        let p = build_patch(lc, l, rc, r);
        assert forall|i: int| 0 <= i < p@.len() implies hunks_view(#[trigger] p@[i].1@)
            == folder_patch_of(p@[i].0@, local_cache@, local@, remote_cache@, remote@) by {
            let f = p@[i].0@;
            assert(has_key(p@, f));
            assert(admits(&self.strategy, f));
            assert(folder_patch_of(f, lcv, lv, rcv, rv) == folder_patch_of(
                f,
                local_cache@,
                local@,
                remote_cache@,
                remote@,
            ));
        }
        p
    }
}

} // verus!
