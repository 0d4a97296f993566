//! Envelope synchronization patch: the per-folder four-corner diff of the
//! envelopes of the left cache, the left backend, the right cache and the
//! right backend, keyed by Message-ID.

use vstd::prelude::*;

use crate::envelope::{
    email_hunks_view, with_flags, EmailHunkView, EmailSyncHunk, Envelope, EnvelopeView,
};
use crate::flag::{Flag, FlagView, Flags};
use crate::sync::SyncDestination;

verus! {

/// The flags of an optional envelope; none when it is absent.
pub open spec fn flags_of(e: Option<EnvelopeView>) -> Set<FlagView> {
    match e {
        Some(e) => e.flags,
        None => Set::empty(),
    }
}

/// The merge policy: the union of the flags of the four corners, with
/// Deleted removed unless a backend (not a cache) holds it.
pub open spec fn merged_flags(
    lc: Option<EnvelopeView>,
    l: Option<EnvelopeView>,
    rc: Option<EnvelopeView>,
    r: Option<EnvelopeView>,
) -> Set<FlagView> {
    let u = flags_of(lc).union(flags_of(l)).union(flags_of(rc)).union(flags_of(r));
    if flags_of(l).contains(FlagView::Deleted) || flags_of(r).contains(FlagView::Deleted) {
        u
    } else {
        u.remove(FlagView::Deleted)
    }
}

/// Hunks bringing one side (backend `e`, cache `c`) to the flags `m`,
/// when its backend holds the message.
pub open spec fn side_hunks(
    folder: Seq<char>,
    side: SyncDestination,
    c: Option<EnvelopeView>,
    e: Option<EnvelopeView>,
    m: Set<FlagView>,
) -> Seq<EmailHunkView> {
    match e {
        None => seq![],
        Some(x) => {
            let update = if x.flags == m {
                seq![]
            } else {
                seq![EmailHunkView::UpdateFlags(folder, with_flags(x, m), side)]
            };
            let cache = match c {
                Some(y) => if y.flags == m {
                    seq![]
                } else {
                    seq![EmailHunkView::UpdateCachedFlags(folder, with_flags(y, m), side)]
                },
                None => seq![EmailHunkView::GetThenCache(folder, x.id, side)],
            };
            update + cache
        },
    }
}

/// The copy owed to the side whose backend lacks the message.
pub open spec fn copy_hunks(
    folder: Seq<char>,
    l: Option<EnvelopeView>,
    r: Option<EnvelopeView>,
    m: Set<FlagView>,
) -> Seq<EmailHunkView> {
    match (l, r) {
        (Some(x), None) => seq![
            EmailHunkView::CopyThenCache(
                folder,
                with_flags(x, m),
                SyncDestination::Left,
                SyncDestination::Right,
                false,
            ),
        ],
        (None, Some(x)) => seq![
            EmailHunkView::CopyThenCache(
                folder,
                with_flags(x, m),
                SyncDestination::Right,
                SyncDestination::Left,
                false,
            ),
        ],
        _ => seq![],
    }
}

/// The hunks owed to one Message-ID of `folder`, given its envelope (if
/// any) in the left cache, left backend, right cache and right backend.
///
/// A message known to a cache but gone from its backend was deleted by
/// the user: the deletion is propagated. A message on the left backend
/// whose only other trace is the right cache moved away from the right: it
/// is copied back there as the left holds it. Otherwise the message is
/// brought to every corner with the merged flags.
pub open spec fn email_row(
    folder: Seq<char>,
    lc: Option<EnvelopeView>,
    l: Option<EnvelopeView>,
    rc: Option<EnvelopeView>,
    r: Option<EnvelopeView>,
) -> Seq<EmailHunkView> {
    let m = merged_flags(lc, l, rc, r);
    let (left, right) = (SyncDestination::Left, SyncDestination::Right);
    match (lc, l, rc, r) {
        (None, None, None, None) => seq![],
        (Some(a), None, None, None) => seq![EmailHunkView::Uncache(folder, a.id, left)],
        (None, None, Some(b), None) => seq![EmailHunkView::Uncache(folder, b.id, right)],
        (Some(a), None, Some(b), None) => seq![
            EmailHunkView::Uncache(folder, a.id, left),
            EmailHunkView::Uncache(folder, b.id, right),
        ],
        (Some(a), None, Some(b), Some(x)) => seq![
            EmailHunkView::Uncache(folder, a.id, left),
            EmailHunkView::Uncache(folder, b.id, right),
            EmailHunkView::Delete(folder, x.id, right),
        ],
        (Some(a), Some(x), Some(b), None) => seq![
            EmailHunkView::Uncache(folder, a.id, left),
            EmailHunkView::Delete(folder, x.id, left),
            EmailHunkView::Uncache(folder, b.id, right),
        ],
        (Some(a), None, None, Some(x)) => seq![
            EmailHunkView::Uncache(folder, a.id, left),
            EmailHunkView::Delete(folder, x.id, right),
            EmailHunkView::Uncache(folder, x.id, right),
        ],
        (None, Some(x), Some(_), None) => seq![
            EmailHunkView::Uncache(folder, x.id, left),
            EmailHunkView::CopyThenCache(folder, x, left, right, true),
        ],
        _ => side_hunks(folder, left, lc, l, m) + side_hunks(folder, right, rc, r, m) + copy_hunks(
            folder,
            l,
            r,
            m,
        ),
    }
}

/// The view of an optional envelope reference.
pub open spec fn opt_view(e: Option<&Envelope>) -> Option<EnvelopeView> {
    match e {
        Some(e) => Some(e@),
        None => None,
    }
}

fn extend_opt(m: &mut Flags, e: Option<&Envelope>)
    ensures
        final(m)@ == old(m)@.union(flags_of(opt_view(e))),
{
    match e {
        Some(e) => m.extend(&e.flags),
        None => {
            assert(old(m)@.union(Set::empty()) =~= old(m)@);
        },
    }
}

fn has_deleted(e: Option<&Envelope>) -> (r: bool)
    ensures
        r == flags_of(opt_view(e)).contains(FlagView::Deleted),
{
    match e {
        Some(e) => e.flags.contains(&Flag::Deleted),
        None => false,
    }
}

/// The merged flags of the four corners of one message.
pub fn merge_flags(
    lc: Option<&Envelope>,
    l: Option<&Envelope>,
    rc: Option<&Envelope>,
    r: Option<&Envelope>,
) -> (m: Flags)
    ensures
        m@ == merged_flags(opt_view(lc), opt_view(l), opt_view(rc), opt_view(r)),
{
    let mut m = Flags::new();
    assert(Set::<FlagView>::empty().union(flags_of(opt_view(lc))) =~= flags_of(opt_view(lc)));
    extend_opt(&mut m, lc);
    extend_opt(&mut m, l);
    extend_opt(&mut m, rc);
    extend_opt(&mut m, r);
    if !(has_deleted(l) || has_deleted(r)) {
        m.remove(&Flag::Deleted);
    }
    m
}

fn push_hunk(v: &mut Vec<EmailSyncHunk>, h: EmailSyncHunk)
    ensures
        email_hunks_view(final(v)@) == email_hunks_view(old(v)@).push(h@),
{
    let ghost v0 = v@;
    v.push(h);
    assert(email_hunks_view(v@) =~= email_hunks_view(v0).push(h@));
}

fn push_side_hunks(
    v: &mut Vec<EmailSyncHunk>,
    folder: &String,
    side: SyncDestination,
    c: Option<&Envelope>,
    e: Option<&Envelope>,
    m: &Flags,
)
    ensures
        email_hunks_view(final(v)@) == email_hunks_view(old(v)@) + side_hunks(
            folder@,
            side,
            opt_view(c),
            opt_view(e),
            m@,
        ),
{
    let ghost v0 = email_hunks_view(v@);
    match e {
        None => {
            assert(v0 + seq![] =~= v0);
        },
        Some(x) => {
            if !x.flags.same(m) {
                push_hunk(v, EmailSyncHunk::UpdateFlags(folder.clone(), x.with_flags(m), side));
            }
            let ghost v1 = email_hunks_view(v@);
            match c {
                Some(y) => {
                    if !y.flags.same(m) {
                        push_hunk(
                            v,
                            EmailSyncHunk::UpdateCachedFlags(folder.clone(), y.with_flags(m), side),
                        );
                    }
                },
                None => {
                    push_hunk(v, EmailSyncHunk::GetThenCache(folder.clone(), x.id.clone(), side));
                },
            }
            let ghost s = side_hunks(folder@, side, opt_view(c), opt_view(e), m@);
            assert(email_hunks_view(v@) =~= v0 + s);
        },
    }
}

/// The hunks owed to one Message-ID of `folder`, given its envelope (if
/// any) in the left cache, left backend, right cache and right backend.
pub fn build_message_hunks(
    folder: &String,
    lc: Option<&Envelope>,
    l: Option<&Envelope>,
    rc: Option<&Envelope>,
    r: Option<&Envelope>,
) -> (v: Vec<EmailSyncHunk>)
    ensures
        email_hunks_view(v@) == email_row(
            folder@,
            opt_view(lc),
            opt_view(l),
            opt_view(rc),
            opt_view(r),
        ),
{
    let m = merge_flags(lc, l, rc, r);
    let left = SyncDestination::Left;
    let right = SyncDestination::Right;
    let mut v: Vec<EmailSyncHunk> = Vec::new();
    let ghost row = email_row(folder@, opt_view(lc), opt_view(l), opt_view(rc), opt_view(r));
    match (lc, l, rc, r) {
        (None, None, None, None) => {},
        (Some(a), None, None, None) => {
            push_hunk(&mut v, EmailSyncHunk::Uncache(folder.clone(), a.id.clone(), left));
        },
        (None, None, Some(b), None) => {
            push_hunk(&mut v, EmailSyncHunk::Uncache(folder.clone(), b.id.clone(), right));
        },
        (Some(a), None, Some(b), None) => {
            push_hunk(&mut v, EmailSyncHunk::Uncache(folder.clone(), a.id.clone(), left));
            push_hunk(&mut v, EmailSyncHunk::Uncache(folder.clone(), b.id.clone(), right));
        },
        (Some(a), None, Some(b), Some(x)) => {
            push_hunk(&mut v, EmailSyncHunk::Uncache(folder.clone(), a.id.clone(), left));
            push_hunk(&mut v, EmailSyncHunk::Uncache(folder.clone(), b.id.clone(), right));
            push_hunk(&mut v, EmailSyncHunk::Delete(folder.clone(), x.id.clone(), right));
        },
        (Some(a), Some(x), Some(b), None) => {
            push_hunk(&mut v, EmailSyncHunk::Uncache(folder.clone(), a.id.clone(), left));
            push_hunk(&mut v, EmailSyncHunk::Delete(folder.clone(), x.id.clone(), left));
            push_hunk(&mut v, EmailSyncHunk::Uncache(folder.clone(), b.id.clone(), right));
        },
        (Some(a), None, None, Some(x)) => {
            push_hunk(&mut v, EmailSyncHunk::Uncache(folder.clone(), a.id.clone(), left));
            push_hunk(&mut v, EmailSyncHunk::Delete(folder.clone(), x.id.clone(), right));
            push_hunk(&mut v, EmailSyncHunk::Uncache(folder.clone(), x.id.clone(), right));
        },
        (None, Some(x), Some(_), None) => {
            push_hunk(&mut v, EmailSyncHunk::Uncache(folder.clone(), x.id.clone(), left));
            push_hunk(
                &mut v,
                EmailSyncHunk::CopyThenCache(folder.clone(), x.duplicate(), left, right, true),
            );
        },
        _ => {
            push_side_hunks(&mut v, folder, left, lc, l, &m);
            push_side_hunks(&mut v, folder, right, rc, r, &m);
            match (l, r) {
                (Some(x), None) => {
                    push_hunk(
                        &mut v,
                        EmailSyncHunk::CopyThenCache(
                            folder.clone(),
                            x.with_flags(&m),
                            left,
                            right,
                            false,
                        ),
                    );
                },
                (None, Some(x)) => {
                    push_hunk(
                        &mut v,
                        EmailSyncHunk::CopyThenCache(
                            folder.clone(),
                            x.with_flags(&m),
                            right,
                            left,
                            false,
                        ),
                    );
                },
                _ => {},
            }
        },
    }
    assert(email_hunks_view(v@) =~= row);
    v
}

/// The patch of each message of a folder: one entry per Message-ID,
/// Message-IDs unique.
pub type EmailSyncPatches = Vec<(String, Vec<EmailSyncHunk>)>;

/// The Message-IDs of `v` are pairwise distinct: `v` is a map from
/// Message-ID to envelope.
pub open spec fn message_ids_unique(v: Seq<Envelope>) -> bool {
    forall|i: int, j: int|
        0 <= i < v.len() && 0 <= j < v.len() && i != j ==> v[i].message_id@ != v[j].message_id@
}

/// Whether `v` holds an envelope with Message-ID `m`.
pub open spec fn has_message(v: Seq<Envelope>, m: Seq<char>) -> bool {
    exists|i: int| 0 <= i < v.len() && #[trigger] v[i].message_id@ == m
}

/// The envelope of `v` with Message-ID `m`, if any.
pub open spec fn lookup(v: Seq<Envelope>, m: Seq<char>) -> Option<EnvelopeView> {
    if has_message(v, m) {
        Some(v[choose|i: int| 0 <= i < v.len() && #[trigger] v[i].message_id@ == m]@)
    } else {
        None
    }
}

/// Whether `m` is a key of the patches `p`.
pub open spec fn has_message_key(p: Seq<(String, Vec<EmailSyncHunk>)>, m: Seq<char>) -> bool {
    exists|i: int| 0 <= i < p.len() && #[trigger] p[i].0@ == m
}

/// The keys of `p` are pairwise distinct.
pub open spec fn message_keys_unique(p: Seq<(String, Vec<EmailSyncHunk>)>) -> bool {
    forall|i: int, j: int| 0 <= i < p.len() && 0 <= j < p.len() && i != j ==> p[i].0@ != p[j].0@
}

/// The hunks owed to Message-ID `m` of `folder` by the four envelope maps.
pub open spec fn message_patch_of(
    folder: Seq<char>,
    m: Seq<char>,
    lc: Seq<Envelope>,
    l: Seq<Envelope>,
    rc: Seq<Envelope>,
    r: Seq<Envelope>,
) -> Seq<EmailHunkView> {
    email_row(folder, lookup(lc, m), lookup(l, m), lookup(rc, m), lookup(r, m))
}

/// `p` is exactly the envelope patch of `folder` for the four envelope
/// maps: one entry per Message-ID found anywhere, holding its row.
pub open spec fn is_email_patches(
    folder: Seq<char>,
    p: Seq<(String, Vec<EmailSyncHunk>)>,
    lc: Seq<Envelope>,
    l: Seq<Envelope>,
    rc: Seq<Envelope>,
    r: Seq<Envelope>,
) -> bool {
    &&& message_keys_unique(p)
    &&& forall|m: Seq<char>|
        #![trigger has_message_key(p, m)]
        has_message_key(p, m) <==> (has_message(lc, m) || has_message(l, m) || has_message(rc, m)
            || has_message(r, m))
    &&& forall|i: int|
        0 <= i < p.len() ==> email_hunks_view(#[trigger] p[i].1@) == message_patch_of(
            folder,
            p[i].0@,
            lc,
            l,
            rc,
            r,
        )
}

/// The envelope of `v` with Message-ID `m`, if any.
pub fn find_envelope<'a>(v: &'a Vec<Envelope>, m: &String) -> (r: Option<&'a Envelope>)
    requires
        message_ids_unique(v@),
    ensures
        opt_view(r) == lookup(v@, m@),
{
    let mut i: usize = 0;
    while i < v.len()
        invariant
            0 <= i <= v.len(),
            message_ids_unique(v@),
            forall|k: int| 0 <= k < i ==> v@[k].message_id@ != m@,
        decreases v.len() - i,
    {
        if v[i].message_id == *m {
            assert(v@[i as int].message_id@ == m@);
            assert(has_message(v@, m@));
            let ghost j = choose|j: int| 0 <= j < v@.len() && #[trigger] v@[j].message_id@ == m@;
            assert(v@[j].message_id@ == v@[i as int].message_id@);
            assert(j == i);
            return Some(&v[i]);
        }
        i = i + 1;
    }
    None
}

fn patches_has_message(p: &EmailSyncPatches, m: &String) -> (b: bool)
    ensures
        b == has_message_key(p@, m@),
{
    let mut i: usize = 0;
    while i < p.len()
        invariant
            0 <= i <= p.len(),
            forall|k: int| 0 <= k < i ==> p@[k].0@ != m@,
        decreases p.len() - i,
    {
        if p[i].0 == *m {
            return true;
        }
        i = i + 1;
    }
    false
}

/// Adds to `p` the entry of every Message-ID of `src` that has none yet.
fn add_messages(
    p: &mut EmailSyncPatches,
    folder: &String,
    src: &Vec<Envelope>,
    lc: &Vec<Envelope>,
    l: &Vec<Envelope>,
    rc: &Vec<Envelope>,
    r: &Vec<Envelope>,
)
    requires
        message_ids_unique(lc@),
        message_ids_unique(l@),
        message_ids_unique(rc@),
        message_ids_unique(r@),
        message_keys_unique(old(p)@),
        forall|i: int|
            0 <= i < old(p)@.len() ==> email_hunks_view(#[trigger] old(p)@[i].1@)
                == message_patch_of(folder@, old(p)@[i].0@, lc@, l@, rc@, r@),
    ensures
        message_keys_unique(final(p)@),
        forall|i: int|
            0 <= i < final(p)@.len() ==> email_hunks_view(#[trigger] final(p)@[i].1@)
                == message_patch_of(folder@, final(p)@[i].0@, lc@, l@, rc@, r@),
        forall|m: Seq<char>|
            #![trigger has_message_key(final(p)@, m)]
            has_message_key(final(p)@, m) <==> (has_message_key(old(p)@, m) || has_message(
                src@,
                m,
            )),
{
    let ghost p0 = p@;
    let mut i: usize = 0;
    while i < src.len()
        invariant
            0 <= i <= src.len(),
            message_ids_unique(lc@),
            message_ids_unique(l@),
            message_ids_unique(rc@),
            message_ids_unique(r@),
            message_keys_unique(p@),
            forall|k: int|
                0 <= k < p@.len() ==> email_hunks_view(#[trigger] p@[k].1@) == message_patch_of(
                    folder@,
                    p@[k].0@,
                    lc@,
                    l@,
                    rc@,
                    r@,
                ),
            forall|m: Seq<char>|
                #![trigger has_message_key(p@, m)]
                has_message_key(p@, m) <==> (has_message_key(p0, m) || has_message(
                    src@.take(i as int),
                    m,
                )),
        decreases src.len() - i,
    {
        let m = &src[i].message_id;
        let ghost before = p@;
        if !patches_has_message(p, m) {
            let hunks = build_message_hunks(
                folder,
                find_envelope(lc, m),
                find_envelope(l, m),
                find_envelope(rc, m),
                find_envelope(r, m),
            );
            p.push((m.clone(), hunks));
            assert(p@[p@.len() - 1].0@ == m@);
            assert forall|k: Seq<char>|
                has_message_key(p@, k) <==> (has_message_key(before, k) || k == m@) by {
                if has_message_key(p@, k) {
                    let j = choose|j: int| 0 <= j < p@.len() && #[trigger] p@[j].0@ == k;
                    if j < before.len() {
                        assert(before[j].0@ == k);
                    }
                }
                if has_message_key(before, k) {
                    let j = choose|j: int| 0 <= j < before.len() && #[trigger] before[j].0@ == k;
                    assert(p@[j].0@ == k);
                }
            }
        }
        assert forall|k: Seq<char>|
            has_message(src@.take(i + 1), k) <==> (has_message(src@.take(i as int), k) || k
                == m@) by {
            if has_message(src@.take(i + 1), k) {
                let j = choose|j: int|
                    0 <= j < src@.take(i + 1).len() && #[trigger] src@.take(i + 1)[j].message_id@
                        == k;
                if j < i {
                    assert(src@.take(i as int)[j].message_id@ == k);
                }
            }
            if has_message(src@.take(i as int), k) {
                let j = choose|j: int|
                    0 <= j < src@.take(i as int).len() && #[trigger] src@.take(
                        i as int,
                    )[j].message_id@ == k;
                assert(src@.take(i + 1)[j].message_id@ == k);
            }
            if k == m@ {
                assert(src@.take(i + 1)[i as int].message_id@ == k);
            }
        }
        assert forall|k: Seq<char>|
            #![trigger has_message_key(p@, k)]
            has_message_key(p@, k) <==> (has_message_key(p0, k) || has_message(
                src@.take(i + 1),
                k,
            )) by {
            assert(has_message_key(before, k) <==> (has_message_key(p0, k) || has_message(
                src@.take(i as int),
                k,
            )));
        }
        i = i + 1;
    }
    assert(src@.take(i as int) =~= src@);
}

/// Builds the envelope patch of `folder` from the envelope maps of the
/// left cache, left backend, right cache and right backend: one entry for
/// every Message-ID found in any of them, holding its row.
pub fn build(
    folder: &String,
    left_cache: &Vec<Envelope>,
    left: &Vec<Envelope>,
    right_cache: &Vec<Envelope>,
    right: &Vec<Envelope>,
) -> (p: EmailSyncPatches)
    requires
        message_ids_unique(left_cache@),
        message_ids_unique(left@),
        message_ids_unique(right_cache@),
        message_ids_unique(right@),
    ensures
        is_email_patches(folder@, p@, left_cache@, left@, right_cache@, right@),
{
    let mut p: EmailSyncPatches = Vec::new();
    add_messages(&mut p, folder, left_cache, left_cache, left, right_cache, right);
    add_messages(&mut p, folder, left, left_cache, left, right_cache, right);
    add_messages(&mut p, folder, right_cache, left_cache, left, right_cache, right);
    add_messages(&mut p, folder, right, left_cache, left, right_cache, right);
    p
}

} // verus!
