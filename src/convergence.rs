//! What applying a patch does to the four corners (left cache, left
//! backend, right cache, right backend) of one folder or one message, and
//! the facts that follow: a run leaves every corner in agreement, and a
//! second run with no outside change has nothing left to do.

use vstd::prelude::*;

use crate::email_patch::{
    copy_hunks, email_row, flags_of, is_email_patches, lookup, merged_flags, side_hunks, EmailSyncPatches,
};
use crate::envelope::{email_hunks_view, Envelope};
use crate::envelope::{EmailHunkView, EnvelopeView};
use crate::flag::FlagView;
use crate::folder_patch::{folder_row, has_name, hunks_view, is_folder_patches, FolderOp, FolderSyncPatches};
use crate::sync::SyncDestination;

verus! {

/// Whether a folder is known to the left cache, left backend, right cache
/// and right backend.
pub type FolderCorners = (bool, bool, bool, bool);

/// The effect of one folder operation on the corners of its folder.
pub open spec fn apply_folder_op(c: FolderCorners, op: (FolderOp, SyncDestination)) -> FolderCorners {
    let (lc, l, rc, r) = c;
    match op {
        (FolderOp::Cache, SyncDestination::Left) => (true, l, rc, r),
        (FolderOp::Uncache, SyncDestination::Left) => (false, l, rc, r),
        (FolderOp::Create, SyncDestination::Left) => (lc, true, rc, r),
        (FolderOp::Delete, SyncDestination::Left) => (lc, false, rc, r),
        (FolderOp::Cache, SyncDestination::Right) => (lc, l, true, r),
        (FolderOp::Uncache, SyncDestination::Right) => (lc, l, false, r),
        (FolderOp::Create, SyncDestination::Right) => (lc, l, rc, true),
        (FolderOp::Delete, SyncDestination::Right) => (lc, l, rc, false),
    }
}

/// The corners after applying the first `n` operations of `ops` in order.
pub open spec fn apply_folder_prefix(
    c: FolderCorners,
    ops: Seq<(FolderOp, SyncDestination)>,
    n: nat,
) -> FolderCorners
    decreases n,
{
    if n == 0 || n > ops.len() {
        c
    } else {
        apply_folder_op(apply_folder_prefix(c, ops, (n - 1) as nat), ops[n - 1])
    }
}

/// The corners after applying all of `ops` in order.
pub open spec fn apply_folder_ops(c: FolderCorners, ops: Seq<(FolderOp, SyncDestination)>) -> FolderCorners {
    apply_folder_prefix(c, ops, ops.len())
}

/// A folder sync leaves the folder either on all four corners or on none,
/// and a second sync of the result owes no hunk.
pub proof fn lemma_folder_sync_converges(lc: bool, l: bool, rc: bool, r: bool)
    ensures
        ({
            let (lc2, l2, rc2, r2) = apply_folder_ops((lc, l, rc, r), folder_row(lc, l, rc, r));
            &&& lc2 == l2 && l2 == rc2 && rc2 == r2
            &&& folder_row(lc2, l2, rc2, r2) == Seq::<(FolderOp, SyncDestination)>::empty()
        }),
{
    reveal_with_fuel(apply_folder_prefix, 4);
    let row = folder_row(lc, l, rc, r);
    assert(row.len() <= 3);
    let (lc2, l2, rc2, r2) = apply_folder_ops((lc, l, rc, r), row);
    assert(lc2 == l2 && l2 == rc2 && rc2 == r2);
    assert(folder_row(lc2, l2, rc2, r2) =~= Seq::<(FolderOp, SyncDestination)>::empty());
}

/// The flags of a message on the left cache, left backend, right cache and
/// right backend; none where it is absent.
pub type Corners = (
    Option<Set<FlagView>>,
    Option<Set<FlagView>>,
    Option<Set<FlagView>>,
    Option<Set<FlagView>>,
);

/// The flags of an optional envelope, none where it is absent.
pub open spec fn opt_flags(e: Option<EnvelopeView>) -> Option<Set<FlagView>> {
    match e {
        Some(e) => Some(e.flags),
        None => None,
    }
}

/// The corners of a message given its four optional envelopes.
pub open spec fn corners_of(
    lc: Option<EnvelopeView>,
    l: Option<EnvelopeView>,
    rc: Option<EnvelopeView>,
    r: Option<EnvelopeView>,
) -> Corners {
    (opt_flags(lc), opt_flags(l), opt_flags(rc), opt_flags(r))
}

/// Sets the backend corner of `side`.
pub open spec fn set_backend(c: Corners, side: SyncDestination, v: Option<Set<FlagView>>) -> Corners {
    match side {
        SyncDestination::Left => (c.0, v, c.2, c.3),
        SyncDestination::Right => (c.0, c.1, c.2, v),
    }
}

/// Sets the cache corner of `side`.
pub open spec fn set_cache(c: Corners, side: SyncDestination, v: Option<Set<FlagView>>) -> Corners {
    match side {
        SyncDestination::Left => (v, c.1, c.2, c.3),
        SyncDestination::Right => (c.0, c.1, v, c.3),
    }
}

/// The backend corner of `side`.
pub open spec fn backend_of(c: Corners, side: SyncDestination) -> Option<Set<FlagView>> {
    match side {
        SyncDestination::Left => c.1,
        SyncDestination::Right => c.3,
    }
}

/// The effect of one email hunk on the corners of its message: a
/// backend that stores a message with given flags reports those flags,
/// and a message marked deleted no longer counts.
pub open spec fn apply_email_hunk(c: Corners, h: EmailHunkView) -> Corners {
    match h {
        EmailHunkView::GetThenCache(_, _, side) => set_cache(c, side, backend_of(c, side)),
        EmailHunkView::CopyThenCache(_, e, source, target, refresh) => {
            let c1 = if refresh {
                set_cache(c, source, Some(e.flags))
            } else {
                c
            };
            set_cache(set_backend(c1, target, Some(e.flags)), target, Some(e.flags))
        },
        EmailHunkView::UpdateFlags(_, e, side) => set_backend(c, side, Some(e.flags)),
        EmailHunkView::UpdateCachedFlags(_, e, side) => set_cache(c, side, Some(e.flags)),
        EmailHunkView::Delete(_, _, side) => set_backend(c, side, None),
        EmailHunkView::Uncache(_, _, side) => set_cache(c, side, None),
    }
}

/// The corners after applying the first `n` hunks of `hs` in order.
pub open spec fn apply_email_prefix(c: Corners, hs: Seq<EmailHunkView>, n: nat) -> Corners
    decreases n,
{
    if n == 0 || n > hs.len() {
        c
    } else {
        apply_email_hunk(apply_email_prefix(c, hs, (n - 1) as nat), hs[n - 1])
    }
}

/// The corners after applying all of `hs` in order.
pub open spec fn apply_email_hunks(c: Corners, hs: Seq<EmailHunkView>) -> Corners {
    apply_email_prefix(c, hs, hs.len())
}

/// The four corners agree: the message is everywhere with the same flags,
/// or nowhere.
pub open spec fn converged(c: Corners) -> bool {
    c.0 == c.1 && c.1 == c.2 && c.2 == c.3
}

proof fn lemma_email_prefix_concat(c: Corners, a: Seq<EmailHunkView>, b: Seq<EmailHunkView>, k: nat)
    requires
        k <= b.len(),
    ensures
        apply_email_prefix(c, a + b, a.len() + k) == apply_email_prefix(
            apply_email_hunks(c, a),
            b,
            k,
        ),
    decreases k,
{
    if k == 0 {
        lemma_email_prefix_same(c, a, a + b, a.len());
    } else {
        lemma_email_prefix_concat(c, a, b, (k - 1) as nat);
        assert((a + b)[a.len() + k - 1] == b[k - 1]);
    }
}

proof fn lemma_email_prefix_same(c: Corners, a: Seq<EmailHunkView>, b: Seq<EmailHunkView>, n: nat)
    requires
        n <= a.len(),
        n <= b.len(),
        forall|i: int| 0 <= i < n ==> a[i] == b[i],
    ensures
        apply_email_prefix(c, a, n) == apply_email_prefix(c, b, n),
    decreases n,
{
    if n > 0 {
        lemma_email_prefix_same(c, a, b, (n - 1) as nat);
    }
}

/// Applying `a + b` is applying `a`, then `b`.
proof fn lemma_email_concat(c: Corners, a: Seq<EmailHunkView>, b: Seq<EmailHunkView>)
    ensures
        apply_email_hunks(c, a + b) == apply_email_hunks(apply_email_hunks(c, a), b),
{
    lemma_email_prefix_concat(c, a, b, b.len());
    assert((a + b).len() == a.len() + b.len());
}

/// The cache corner of `side`.
pub open spec fn cache_of(c: Corners, side: SyncDestination) -> Option<Set<FlagView>> {
    match side {
        SyncDestination::Left => c.0,
        SyncDestination::Right => c.2,
    }
}

proof fn lemma_side_hunks(
    c: Corners,
    folder: Seq<char>,
    side: SyncDestination,
    cc: Option<EnvelopeView>,
    e: EnvelopeView,
    m: Set<FlagView>,
)
    requires
        backend_of(c, side) == Some(e.flags),
        cache_of(c, side) == opt_flags(cc),
    ensures
        apply_email_hunks(c, side_hunks(folder, side, cc, Some(e), m)) == set_cache(
            set_backend(c, side, Some(m)),
            side,
            Some(m),
        ),
{
    reveal_with_fuel(apply_email_prefix, 2);
    let update = if e.flags == m {
        seq![]
    } else {
        seq![EmailHunkView::UpdateFlags(folder, crate::envelope::with_flags(e, m), side)]
    };
    let cache = match cc {
        Some(y) => if y.flags == m {
            seq![]
        } else {
            seq![EmailHunkView::UpdateCachedFlags(folder, crate::envelope::with_flags(y, m), side)]
        },
        None => seq![EmailHunkView::GetThenCache(folder, e.id, side)],
    };
    assert(side_hunks(folder, side, cc, Some(e), m) == update + cache);
    lemma_email_concat(c, update, cache);
    let c1 = apply_email_hunks(c, update);
    assert(c1 == set_backend(c, side, Some(m)));
    assert(apply_email_hunks(c1, cache) == set_cache(c1, side, Some(m)));
}

/// A sync of one Message-ID leaves the four corners in agreement: the
/// message ends up on all of them with identical flags, or on none. The
/// hunks of distinct Message-IDs touch distinct corners, so this holds of
/// every Message-ID of a folder patch at once.
pub proof fn lemma_email_sync_converges(
    folder: Seq<char>,
    lc: Option<EnvelopeView>,
    l: Option<EnvelopeView>,
    rc: Option<EnvelopeView>,
    r: Option<EnvelopeView>,
)
    ensures
        converged(apply_email_hunks(corners_of(lc, l, rc, r), email_row(folder, lc, l, rc, r))),
{
    reveal_with_fuel(apply_email_prefix, 4);
    let c0 = corners_of(lc, l, rc, r);
    let m = merged_flags(lc, l, rc, r);
    let left = SyncDestination::Left;
    let right = SyncDestination::Right;
    match (lc, l, rc, r) {
        (None, None, None, None) => {},
        (Some(_), None, None, None) => {},
        (None, None, Some(_), None) => {},
        (Some(_), None, Some(_), None) => {},
        (Some(_), None, Some(_), Some(_)) => {},
        (Some(_), Some(_), Some(_), None) => {},
        (Some(_), None, None, Some(_)) => {},
        (None, Some(_), Some(_), None) => {},
        _ => {
            let a = side_hunks(folder, left, lc, l, m);
            let b = side_hunks(folder, right, rc, r, m);
            let d = copy_hunks(folder, l, r, m);
            assert(email_row(folder, lc, l, rc, r) == a + b + d);
            lemma_email_concat(c0, a + b, d);
            lemma_email_concat(c0, a, b);
            let c1 = apply_email_hunks(c0, a);
            match l {
                Some(x) => {
                    lemma_side_hunks(c0, folder, left, lc, x, m);
                },
                None => {},
            }
            let c2 = apply_email_hunks(c1, b);
            match r {
                Some(x) => {
                    lemma_side_hunks(c1, folder, right, rc, x, m);
                },
                None => {},
            }
            let c3 = apply_email_hunks(c2, d);
            assert(c3.0 == Some(m) && c3.1 == Some(m) && c3.2 == Some(m) && c3.3 == Some(m));
        },
    }
}

/// A second sync with no outside change owes no hunk: whatever envelopes
/// stand on the corners a sync left behind, their row is empty.
pub proof fn lemma_email_sync_idempotent(
    folder: Seq<char>,
    lc: Option<EnvelopeView>,
    l: Option<EnvelopeView>,
    rc: Option<EnvelopeView>,
    r: Option<EnvelopeView>,
    lc2: Option<EnvelopeView>,
    l2: Option<EnvelopeView>,
    rc2: Option<EnvelopeView>,
    r2: Option<EnvelopeView>,
)
    requires
        corners_of(lc2, l2, rc2, r2) == apply_email_hunks(
            corners_of(lc, l, rc, r),
            email_row(folder, lc, l, rc, r),
        ),
    ensures
        email_row(folder, lc2, l2, rc2, r2) == Seq::<EmailHunkView>::empty(),
{
    lemma_email_sync_converges(folder, lc, l, rc, r);
    match l2 {
        None => {
            assert(email_row(folder, lc2, l2, rc2, r2) =~= Seq::<EmailHunkView>::empty());
        },
        Some(x) => {
            let f = x.flags;
            let m = merged_flags(lc2, l2, rc2, r2);
            assert(flags_of(lc2) == f && flags_of(rc2) == f && flags_of(r2) == f);
            assert(m =~= f);
            assert(side_hunks(folder, SyncDestination::Left, lc2, l2, m) =~= Seq::<
                EmailHunkView,
            >::empty());
            assert(side_hunks(folder, SyncDestination::Right, rc2, r2, m) =~= Seq::<
                EmailHunkView,
            >::empty());
            assert(email_row(folder, lc2, l2, rc2, r2) =~= Seq::<EmailHunkView>::empty());
        },
    }
}

/// The operations of a list of folder hunks.
pub open spec fn folder_ops(v: Seq<(FolderOp, Seq<char>, SyncDestination)>) -> Seq<(FolderOp, SyncDestination)> {
    v.map_values(|h: (FolderOp, Seq<char>, SyncDestination)| (h.0, h.2))
}

/// Applying the folder patches `build_patch` returns leaves every folder
/// either on all four corners or on none, and the next run owes it no
/// hunk.
pub proof fn lemma_folder_patches_converge(
    p: FolderSyncPatches,
    lc: Seq<String>,
    l: Seq<String>,
    rc: Seq<String>,
    r: Seq<String>,
)
    requires
        is_folder_patches(p@, lc, l, rc, r),
    ensures
        forall|i: int|
            0 <= i < p@.len() ==> {
                let f = #[trigger] p@[i].0@;
                let (lc2, l2, rc2, r2) = apply_folder_ops(
                    (has_name(lc, f), has_name(l, f), has_name(rc, f), has_name(r, f)),
                    folder_ops(hunks_view(p@[i].1@)),
                );
                &&& lc2 == l2 && l2 == rc2 && rc2 == r2
                &&& folder_row(lc2, l2, rc2, r2) == Seq::<(FolderOp, SyncDestination)>::empty()
            },
{
    assert forall|i: int| 0 <= i < p@.len() implies {
        let f = #[trigger] p@[i].0@;
        let (lc2, l2, rc2, r2) = apply_folder_ops(
            (has_name(lc, f), has_name(l, f), has_name(rc, f), has_name(r, f)),
            folder_ops(hunks_view(p@[i].1@)),
        );
        &&& lc2 == l2 && l2 == rc2 && rc2 == r2
        &&& folder_row(lc2, l2, rc2, r2) == Seq::<(FolderOp, SyncDestination)>::empty()
    } by {
        let f = p@[i].0@;
        let (a, b, c, d) = (has_name(lc, f), has_name(l, f), has_name(rc, f), has_name(r, f));
        assert(folder_ops(hunks_view(p@[i].1@)) =~= folder_row(a, b, c, d));
        lemma_folder_sync_converges(a, b, c, d);
    }
}

/// Applying the envelope patch `build` returns leaves, for every
/// Message-ID it names, the four corners in agreement: the message on all
/// of them with identical flags, or on none. Each Message-ID's hunks only
/// touch that message, so the patches apply independently.
pub proof fn lemma_email_patches_converge(
    folder: Seq<char>,
    p: EmailSyncPatches,
    lc: Seq<Envelope>,
    l: Seq<Envelope>,
    rc: Seq<Envelope>,
    r: Seq<Envelope>,
)
    requires
        is_email_patches(folder, p@, lc, l, rc, r),
    ensures
        forall|i: int|
            0 <= i < p@.len() ==> {
                let m = #[trigger] p@[i].0@;
                converged(
                    apply_email_hunks(
                        corners_of(lookup(lc, m), lookup(l, m), lookup(rc, m), lookup(r, m)),
                        email_hunks_view(p@[i].1@),
                    ),
                )
            },
{
    assert forall|i: int| 0 <= i < p@.len() implies {
        let m = #[trigger] p@[i].0@;
        converged(
            apply_email_hunks(
                corners_of(lookup(lc, m), lookup(l, m), lookup(rc, m), lookup(r, m)),
                email_hunks_view(p@[i].1@),
            ),
        )
    } by {
        let m = p@[i].0@;
        lemma_email_sync_converges(folder, lookup(lc, m), lookup(l, m), lookup(rc, m), lookup(r, m));
    }
}

/// A second run with no outside change owes no envelope hunk: for every
/// Message-ID of the patch `build` returns, whatever envelopes stand on
/// the corners the first run left behind, their row is empty.
pub proof fn lemma_email_patches_idempotent(
    folder: Seq<char>,
    p: EmailSyncPatches,
    lc: Seq<Envelope>,
    l: Seq<Envelope>,
    rc: Seq<Envelope>,
    r: Seq<Envelope>,
)
    requires
        is_email_patches(folder, p@, lc, l, rc, r),
    ensures
        forall|i: int, lc2: Option<EnvelopeView>, l2: Option<EnvelopeView>, rc2: Option<EnvelopeView>, r2: Option<EnvelopeView>|
            0 <= i < p@.len() && #[trigger] corners_of(lc2, l2, rc2, r2) == apply_email_hunks(
                corners_of(
                    lookup(lc, p@[i].0@),
                    lookup(l, p@[i].0@),
                    lookup(rc, p@[i].0@),
                    lookup(r, p@[i].0@),
                ),
                email_hunks_view(#[trigger] p@[i].1@),
            ) ==> email_row(folder, lc2, l2, rc2, r2) == Seq::<EmailHunkView>::empty(),
{
    assert forall|i: int, lc2: Option<EnvelopeView>, l2: Option<EnvelopeView>, rc2: Option<EnvelopeView>, r2: Option<EnvelopeView>|
        0 <= i < p@.len() && #[trigger] corners_of(lc2, l2, rc2, r2) == apply_email_hunks(
            corners_of(
                lookup(lc, p@[i].0@),
                lookup(l, p@[i].0@),
                lookup(rc, p@[i].0@),
                lookup(r, p@[i].0@),
            ),
            email_hunks_view(#[trigger] p@[i].1@),
        ) implies email_row(folder, lc2, l2, rc2, r2) == Seq::<EmailHunkView>::empty() by {
        let m = p@[i].0@;
        lemma_email_sync_idempotent(
            folder,
            lookup(lc, m),
            lookup(l, m),
            lookup(rc, m),
            lookup(r, m),
            lc2,
            l2,
            rc2,
            r2,
        );
    }
}

} // verus!
