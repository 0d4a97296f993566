//! User policy over a sync: which folders take part, and which changes
//! each side permits.

use vstd::prelude::*;

use crate::email_patch::{has_message, is_email_patches, EmailSyncPatches};
use crate::envelope::{email_hunks_view, EmailHunkView, EmailSyncHunk, Envelope, EnvelopeView};
use crate::folder_patch::{
    contains_name, folder_patch_of, has_key, has_name, hunks_view, is_folder_patches,
    lemma_has_name_push, lemma_has_name_step,
    FolderOp, FolderSyncHunk, FolderSyncPatches,
};
use crate::sync::SyncDestination;

verus! {

/// Which folders take part in a sync.
#[derive(Debug)]
pub enum FolderSyncStrategy {
    /// Every folder.
    All,
    /// Only the given folders.
    Include(Vec<String>),
    /// Every folder but the given ones.
    Exclude(Vec<String>),
}

/// Whether the strategy admits folder `f`.
pub open spec fn admits(s: &FolderSyncStrategy, f: Seq<char>) -> bool {
    match s {
        FolderSyncStrategy::All => true,
        FolderSyncStrategy::Include(v) => has_name(v@, f),
        FolderSyncStrategy::Exclude(v) => !has_name(v@, f),
    }
}

impl FolderSyncStrategy {
    /// Whether the strategy admits `folder`.
    pub fn matches(&self, folder: &String) -> (r: bool)
        ensures
            r == admits(self, folder@),
    {
        match self {
            FolderSyncStrategy::All => true,
            FolderSyncStrategy::Include(v) => contains_name(v, folder),
            FolderSyncStrategy::Exclude(v) => !contains_name(v, folder),
        }
    }

    /// The names of `names` the strategy admits, in order.
    pub fn filter_folders(&self, names: &Vec<String>) -> (r: Vec<String>)
        ensures
            forall|f: Seq<char>| has_name(r@, f) <==> (has_name(names@, f) && admits(self, f)),
    {
        let mut r: Vec<String> = Vec::new();
        let mut i: usize = 0;
        while i < names.len()
            invariant
                0 <= i <= names.len(),
                forall|f: Seq<char>|
                    #![trigger has_name(r@, f)]
                    #![trigger has_name(names@.take(i as int), f)]
                    has_name(r@, f) <==> (has_name(names@.take(i as int), f) && admits(self, f)),
            decreases names.len() - i,
        {
            let ghost r0 = r@;
            let keep = self.matches(&names[i]);
            if keep {
                let n = names[i].clone();
                r.push(n);
                proof { lemma_has_name_push(r0, n); }
            }
            proof { lemma_has_name_step(names@, i as int); }
            assert forall|f: Seq<char>|
                #![trigger has_name(r@, f)]
                #![trigger has_name(names@.take(i + 1), f)]
                has_name(r@, f) <==> (has_name(names@.take(i + 1), f) && admits(self, f)) by {
                assert(has_name(r0, f) <==> (has_name(names@.take(i as int), f) && admits(self, f)));
            }
            let ghost i0 = i;
            i = i + 1;
            assert(names@.take(i as int) =~= names@.take(i0 + 1));
        }
        assert(names@.take(i as int) =~= names@);
        assert forall|f: Seq<char>| has_name(r@, f) <==> (has_name(names@, f) && admits(self, f)) by {
            assert(has_name(r@, f) <==> (has_name(names@.take(i as int), f) && admits(self, f)));
        }
        r
    }
}

/// A folder patch built from names the strategy admits only touches
/// folders the strategy admits.
pub proof fn lemma_folder_patch_respects_strategy(
    s: &FolderSyncStrategy,
    p: FolderSyncPatches,
    lc: Seq<String>,
    l: Seq<String>,
    rc: Seq<String>,
    r: Seq<String>,
)
    requires
        is_folder_patches(p@, lc, l, rc, r),
        forall|f: Seq<char>|
            (has_name(lc, f) || has_name(l, f) || has_name(rc, f) || has_name(r, f)) ==> admits(
                s,
                f,
            ),
    ensures
        forall|i: int, j: int|
            0 <= i < p@.len() && 0 <= j < p@[i].1@.len() ==> admits(s, #[trigger] p@[i].1@[j]@.1),
{
    assert forall|i: int, j: int| 0 <= i < p@.len() && 0 <= j < p@[i].1@.len() implies admits(
        s,
        #[trigger] p@[i].1@[j]@.1,
    ) by {
        let f = p@[i].0@;
        assert(has_key(p@, f));
        assert(has_name(lc, f) || has_name(l, f) || has_name(rc, f) || has_name(r, f));
        let row = folder_patch_of(f, lc, l, rc, r);
        assert(hunks_view(p@[i].1@) == row);
        assert(hunks_view(p@[i].1@)[j] == p@[i].1@[j]@);
        assert(row.len() == p@[i].1@.len());
        assert(row[j].1 == f);
    }
}

/// Whether some envelope the filter accepts has Message-ID `m`.
pub open spec fn accepted_message(accepts: spec_fn(EnvelopeView) -> bool, m: Seq<char>) -> bool {
    exists|e: EnvelopeView| #[trigger] accepts(e) && e.message_id == m
}

/// An envelope patch built from envelopes the filter accepts only touches
/// Message-IDs of envelopes the filter accepts.
pub proof fn lemma_email_patch_respects_filter(
    accepts: spec_fn(EnvelopeView) -> bool,
    folder: Seq<char>,
    p: EmailSyncPatches,
    lc: Seq<Envelope>,
    l: Seq<Envelope>,
    rc: Seq<Envelope>,
    r: Seq<Envelope>,
)
    requires
        is_email_patches(folder, p@, lc, l, rc, r),
        forall|i: int| 0 <= i < lc.len() ==> accepts(#[trigger] lc[i]@),
        forall|i: int| 0 <= i < l.len() ==> accepts(#[trigger] l[i]@),
        forall|i: int| 0 <= i < rc.len() ==> accepts(#[trigger] rc[i]@),
        forall|i: int| 0 <= i < r.len() ==> accepts(#[trigger] r[i]@),
    ensures
        forall|i: int| 0 <= i < p@.len() ==> accepted_message(accepts, #[trigger] p@[i].0@),
{
    assert forall|i: int| 0 <= i < p@.len() implies accepted_message(accepts, #[trigger] p@[i].0@) by {
        let m = p@[i].0@;
        assert(crate::email_patch::has_message_key(p@, m));
        if has_message(lc, m) {
            let k = choose|k: int| 0 <= k < lc.len() && #[trigger] lc[k].message_id@ == m;
            assert(accepts(lc[k]@) && lc[k]@.message_id == m);
        } else if has_message(l, m) {
            let k = choose|k: int| 0 <= k < l.len() && #[trigger] l[k].message_id@ == m;
            assert(accepts(l[k]@) && l[k]@.message_id == m);
        } else if has_message(rc, m) {
            let k = choose|k: int| 0 <= k < rc.len() && #[trigger] rc[k].message_id@ == m;
            assert(accepts(rc[k]@) && rc[k]@.message_id == m);
        } else {
            let k = choose|k: int| 0 <= k < r.len() && #[trigger] r[k].message_id@ == m;
            assert(accepts(r[k]@) && r[k]@.message_id == m);
        }
    }
}

/// What one side lets a sync do to its backend.
#[derive(Clone, Copy, Debug, PartialEq, Eq, Structural)]
pub struct SidePermissions {
    pub create: bool,
    pub delete: bool,
    pub update_flags: bool,
}

/// What each side lets a sync do to its backend.
#[derive(Clone, Copy, Debug, PartialEq, Eq, Structural)]
pub struct SyncPermissions {
    pub left: SidePermissions,
    pub right: SidePermissions,
}

/// The permissions of `side`.
pub open spec fn side_permissions(p: SyncPermissions, side: SyncDestination) -> SidePermissions {
    match side {
        SyncDestination::Left => p.left,
        SyncDestination::Right => p.right,
    }
}

/// Whether the permissions allow the folder hunk `h`: creating and
/// deleting a backend folder need the side's permission; cache changes
/// are always allowed.
pub open spec fn folder_hunk_allowed(p: SyncPermissions, h: (FolderOp, Seq<char>, SyncDestination)) -> bool {
    match h.0 {
        FolderOp::Create => side_permissions(p, h.2).create,
        FolderOp::Delete => side_permissions(p, h.2).delete,
        _ => true,
    }
}

/// Whether the permissions allow the email hunk `h`: adding a message to
/// a backend needs create, marking it deleted needs delete, and writing
/// its flags needs update_flags, on the side it is done to; cache changes
/// are always allowed.
pub open spec fn email_hunk_allowed(p: SyncPermissions, h: EmailHunkView) -> bool {
    match h {
        EmailHunkView::CopyThenCache(_, _, _, target, _) => side_permissions(p, target).create,
        EmailHunkView::UpdateFlags(_, _, side) => side_permissions(p, side).update_flags,
        EmailHunkView::Delete(_, _, side) => side_permissions(p, side).delete,
        _ => true,
    }
}

/// [`folder_hunk_allowed`] as a predicate.
pub open spec fn folder_allowed_by(p: SyncPermissions) -> spec_fn((FolderOp, Seq<char>, SyncDestination)) -> bool {
    |h: (FolderOp, Seq<char>, SyncDestination)| folder_hunk_allowed(p, h)
}

/// [`email_hunk_allowed`] as a predicate.
pub open spec fn email_allowed_by(p: SyncPermissions) -> spec_fn(EmailHunkView) -> bool {
    |h: EmailHunkView| email_hunk_allowed(p, h)
}

impl SyncPermissions {
    /// Everything allowed on both sides.
    pub fn all() -> (r: SyncPermissions)
        ensures
            r.left == r.right,
            r.left.create && r.left.delete && r.left.update_flags,
    {
        let s = SidePermissions { create: true, delete: true, update_flags: true };
        SyncPermissions { left: s, right: s }
    }

    fn side(&self, side: SyncDestination) -> (r: SidePermissions)
        ensures
            r == side_permissions(*self, side),
    {
        match side {
            SyncDestination::Left => self.left,
            SyncDestination::Right => self.right,
        }
    }

    /// Whether the folder hunk is allowed.
    pub fn allows_folder_hunk(&self, h: &FolderSyncHunk) -> (r: bool)
        ensures
            r == folder_hunk_allowed(*self, h@),
    {
        match h {
            FolderSyncHunk::Create(_, side) => self.side(*side).create,
            FolderSyncHunk::Delete(_, side) => self.side(*side).delete,
            _ => true,
        }
    }

    /// Whether the email hunk is allowed.
    pub fn allows_email_hunk(&self, h: &EmailSyncHunk) -> (r: bool)
        ensures
            r == email_hunk_allowed(*self, h@),
    {
        match h {
            EmailSyncHunk::CopyThenCache(_, _, _, target, _) => self.side(*target).create,
            EmailSyncHunk::UpdateFlags(_, _, side) => self.side(*side).update_flags,
            EmailSyncHunk::Delete(_, _, side) => self.side(*side).delete,
            _ => true,
        }
    }

    /// The folder hunks the permissions allow, in order; the others are
    /// dropped.
    pub fn apply_folder_permissions(&self, hunks: Vec<FolderSyncHunk>) -> (r: Vec<FolderSyncHunk>)
        ensures
            hunks_view(r@) == hunks_view(hunks@).filter(folder_allowed_by(*self)),
            forall|i: int| 0 <= i < r@.len() ==> folder_hunk_allowed(*self, #[trigger] r@[i]@),
    {
        let mut r: Vec<FolderSyncHunk> = Vec::new();
        let mut i: usize = 0;
        while i < hunks.len()
            invariant
                0 <= i <= hunks.len(),
                hunks_view(r@) == hunks_view(hunks@.take(i as int)).filter(folder_allowed_by(*self)),
                forall|k: int| 0 <= k < r@.len() ==> folder_hunk_allowed(*self, #[trigger] r@[k]@),
            decreases hunks.len() - i,
        {
            let ghost r0 = r@;
            let h = &hunks[i];
            let keep = self.allows_folder_hunk(h);
            if keep {
                r.push(h.clone_hunk());
            }
            proof {
                reveal(Seq::filter);
                let s1 = hunks_view(hunks@.take(i + 1));
                assert(s1.drop_last() =~= hunks_view(hunks@.take(i as int)));
                assert(s1.last() == hunks@[i as int]@);
                if keep {
                    assert(hunks_view(r@) =~= hunks_view(r0).push(hunks@[i as int]@));
                } else {
                    assert(hunks_view(r@) =~= hunks_view(r0));
                }
                assert(s1.filter(folder_allowed_by(*self)) == (if folder_allowed_by(*self)(s1.last()) {
                    s1.drop_last().filter(folder_allowed_by(*self)).push(s1.last())
                } else {
                    s1.drop_last().filter(folder_allowed_by(*self))
                }));
                assert(folder_allowed_by(*self)(s1.last()) == keep);
                assert(hunks_view(r@) == s1.filter(folder_allowed_by(*self)));
            }
            i = i + 1;
        }
        assert(hunks@.take(i as int) =~= hunks@);
        r
    }

    /// The email hunks the permissions allow, in order; the others are
    /// dropped.
    pub fn apply_email_permissions(&self, hunks: Vec<EmailSyncHunk>) -> (r: Vec<EmailSyncHunk>)
        ensures
            email_hunks_view(r@) == email_hunks_view(hunks@).filter(email_allowed_by(*self)),
            forall|i: int| 0 <= i < r@.len() ==> email_hunk_allowed(*self, #[trigger] r@[i]@),
    {
        let mut r: Vec<EmailSyncHunk> = Vec::new();
        let mut i: usize = 0;
        while i < hunks.len()
            invariant
                0 <= i <= hunks.len(),
                email_hunks_view(r@) == email_hunks_view(hunks@.take(i as int)).filter(email_allowed_by(*self)),
                forall|k: int| 0 <= k < r@.len() ==> email_hunk_allowed(*self, #[trigger] r@[k]@),
            decreases hunks.len() - i,
        {
            let ghost r0 = r@;
            let h = &hunks[i];
            let keep = self.allows_email_hunk(h);
            if keep {
                r.push(h.duplicate());
            }
            proof {
                reveal(Seq::filter);
                let s1 = email_hunks_view(hunks@.take(i + 1));
                assert(s1.drop_last() =~= email_hunks_view(hunks@.take(i as int)));
                assert(s1.last() == hunks@[i as int]@);
                if keep {
                    assert(email_hunks_view(r@) =~= email_hunks_view(r0).push(hunks@[i as int]@));
                } else {
                    assert(email_hunks_view(r@) =~= email_hunks_view(r0));
                }
                assert(s1.filter(email_allowed_by(*self)) == (if email_allowed_by(*self)(s1.last()) {
                    s1.drop_last().filter(email_allowed_by(*self)).push(s1.last())
                } else {
                    s1.drop_last().filter(email_allowed_by(*self))
                }));
                assert(email_allowed_by(*self)(s1.last()) == keep);
                assert(email_hunks_view(r@) == s1.filter(email_allowed_by(*self)));
            }
            i = i + 1;
        }
        assert(hunks@.take(i as int) =~= hunks@);
        r
    }
}

} // verus!
