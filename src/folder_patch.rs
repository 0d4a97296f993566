//! Folder synchronization patch: the four-corner diff of the folder sets
//! known to the left cache, the left backend, the right cache and the
//! right backend.

use vstd::prelude::*;

use crate::sync::SyncDestination;

verus! {

/// The operation a folder hunk performs.
#[derive(Clone, Copy, Debug, PartialEq, Eq, Structural, Hash)]
pub enum FolderOp {
    /// Insert the folder name into the cache of a side.
    Cache,
    /// Remove the folder name from the cache of a side.
    Uncache,
    /// Create the folder on the backend of a side.
    Create,
    /// Delete the folder on the backend of a side.
    Delete,
}

/// One atomic folder change.
#[derive(Clone, Debug, PartialEq, Eq, Hash)]
pub enum FolderSyncHunk {
    Cache(String, SyncDestination),
    Uncache(String, SyncDestination),
    Create(String, SyncDestination),
    Delete(String, SyncDestination),
}

/// A list of folder hunks, in apply order.
pub type FolderSyncPatch = Vec<FolderSyncHunk>;

/// The patch of each folder: one entry per folder name, names unique.
pub type FolderSyncPatches = Vec<(String, FolderSyncPatch)>;

/// A set of folder names, held as a list.
pub type FoldersName = Vec<String>;

impl View for FolderSyncHunk {
    type V = (FolderOp, Seq<char>, SyncDestination);

    open spec fn view(&self) -> (FolderOp, Seq<char>, SyncDestination) {
        match self {
            FolderSyncHunk::Cache(f, s) => (FolderOp::Cache, f@, *s),
            FolderSyncHunk::Uncache(f, s) => (FolderOp::Uncache, f@, *s),
            FolderSyncHunk::Create(f, s) => (FolderOp::Create, f@, *s),
            FolderSyncHunk::Delete(f, s) => (FolderOp::Delete, f@, *s),
        }
    }
}

impl FolderSyncHunk {
    /// Builds the hunk performing `op` on `folder` for `side`.
    pub fn new(op: FolderOp, folder: String, side: SyncDestination) -> (h: FolderSyncHunk)
        ensures
            h@ == (op, folder@, side),
    {
        match op {
            FolderOp::Cache => FolderSyncHunk::Cache(folder, side),
            FolderOp::Uncache => FolderSyncHunk::Uncache(folder, side),
            FolderOp::Create => FolderSyncHunk::Create(folder, side),
            FolderOp::Delete => FolderSyncHunk::Delete(folder, side),
        }
    }

    /// A copy of the hunk.
    pub fn clone_hunk(&self) -> (r: FolderSyncHunk)
        ensures
            r@ == self@,
    {
        FolderSyncHunk::new(self.op(), self.folder().clone(), self.side())
    }

    /// The operation of the hunk.
    pub fn op(&self) -> (r: FolderOp)
        ensures
            r == self@.0,
    {
        match self {
            FolderSyncHunk::Cache(..) => FolderOp::Cache,
            FolderSyncHunk::Uncache(..) => FolderOp::Uncache,
            FolderSyncHunk::Create(..) => FolderOp::Create,
            FolderSyncHunk::Delete(..) => FolderOp::Delete,
        }
    }

    /// The folder the hunk is about.
    pub fn folder(&self) -> (r: &String)
        ensures
            r@ == self@.1,
    {
        match self {
            FolderSyncHunk::Cache(f, _) => f,
            FolderSyncHunk::Uncache(f, _) => f,
            FolderSyncHunk::Create(f, _) => f,
            FolderSyncHunk::Delete(f, _) => f,
        }
    }

    /// The side the hunk is applied to.
    pub fn side(&self) -> (r: SyncDestination)
        ensures
            r == self@.2,
    {
        match self {
            FolderSyncHunk::Cache(_, s) => *s,
            FolderSyncHunk::Uncache(_, s) => *s,
            FolderSyncHunk::Create(_, s) => *s,
            FolderSyncHunk::Delete(_, s) => *s,
        }
    }
}

/// The four-corner table: the hunks owed to one folder, given whether it
/// is known to the left cache, the left backend, the right cache and the
/// right backend, in apply order.
pub open spec fn folder_row(lc: bool, l: bool, rc: bool, r: bool) -> Seq<(FolderOp, SyncDestination)> {
    let (cl, ul, nl, dl) = (
        (FolderOp::Cache, SyncDestination::Left),
        (FolderOp::Uncache, SyncDestination::Left),
        (FolderOp::Create, SyncDestination::Left),
        (FolderOp::Delete, SyncDestination::Left),
    );
    let (cr, ur, nr, dr) = (
        (FolderOp::Cache, SyncDestination::Right),
        (FolderOp::Uncache, SyncDestination::Right),
        (FolderOp::Create, SyncDestination::Right),
        (FolderOp::Delete, SyncDestination::Right),
    );
    match (lc, l, rc, r) {
        (false, false, false, false) => seq![],
        (false, false, false, true) => seq![cl, nl, cr],
        (false, false, true, false) => seq![ur],
        (false, false, true, true) => seq![cl, nl],
        (false, true, false, false) => seq![cl, cr, nr],
        (false, true, false, true) => seq![cl, cr],
        (false, true, true, false) => seq![cl, nr],
        (false, true, true, true) => seq![cl],
        (true, false, false, false) => seq![ul],
        (true, false, false, true) => seq![nl, cr],
        (true, false, true, false) => seq![ul, ur],
        (true, false, true, true) => seq![ul, ur, dr],
        (true, true, false, false) => seq![cr, nr],
        (true, true, false, true) => seq![cr],
        (true, true, true, false) => seq![ul, dl, ur],
        (true, true, true, true) => seq![],
    }
}

/// The hunks of one table row, applied to folder `f`.
pub open spec fn row_hunks(f: Seq<char>, lc: bool, l: bool, rc: bool, r: bool) -> Seq<
    (FolderOp, Seq<char>, SyncDestination),
> {
    folder_row(lc, l, rc, r).map_values(|e: (FolderOp, SyncDestination)| (e.0, f, e.1))
}

/// The view of a list of hunks.
pub open spec fn hunks_view(v: Seq<FolderSyncHunk>) -> Seq<(FolderOp, Seq<char>, SyncDestination)> {
    v.map_values(|h: FolderSyncHunk| h@)
}

/// Whether the name list `v` holds the name `f`.
pub open spec fn has_name(v: Seq<String>, f: Seq<char>) -> bool {
    exists|i: int| 0 <= i < v.len() && #[trigger] v[i]@ == f
}

/// The patch owed to folder `f` by the four name lists.
pub open spec fn folder_patch_of(
    f: Seq<char>,
    lc: Seq<String>,
    l: Seq<String>,
    rc: Seq<String>,
    r: Seq<String>,
) -> Seq<(FolderOp, Seq<char>, SyncDestination)> {
    row_hunks(f, has_name(lc, f), has_name(l, f), has_name(rc, f), has_name(r, f))
}

/// Whether `f` is a key of the patches `p`.
pub open spec fn has_key(p: Seq<(String, FolderSyncPatch)>, f: Seq<char>) -> bool {
    exists|i: int| 0 <= i < p.len() && #[trigger] p[i].0@ == f
}

/// The keys of `p` are pairwise distinct.
pub open spec fn keys_unique(p: Seq<(String, FolderSyncPatch)>) -> bool {
    forall|i: int, j: int| 0 <= i < p.len() && 0 <= j < p.len() && i != j ==> p[i].0@ != p[j].0@
}

/// `p` is exactly the folder patch of the four name lists: one entry per
/// folder named anywhere, each holding that folder's table row.
pub open spec fn is_folder_patches(
    p: Seq<(String, FolderSyncPatch)>,
    lc: Seq<String>,
    l: Seq<String>,
    rc: Seq<String>,
    r: Seq<String>,
) -> bool {
    &&& keys_unique(p)
    &&& forall|f: Seq<char>|
        #![trigger has_key(p, f)]
        has_key(p, f) <==> (has_name(lc, f) || has_name(l, f) || has_name(rc, f) || has_name(r, f))
    &&& forall|i: int|
        0 <= i < p.len() ==> hunks_view(#[trigger] p[i].1@) == folder_patch_of(p[i].0@, lc, l, rc, r)
}

/// Taking one more name of `v` adds exactly that name.
pub proof fn lemma_has_name_step(v: Seq<String>, i: int)
    requires
        0 <= i < v.len(),
    ensures
        forall|f: Seq<char>| has_name(v.take(i + 1), f) <==> (has_name(v.take(i), f) || v[i]@ == f),
{
    assert forall|f: Seq<char>| has_name(v.take(i + 1), f) <==> (has_name(v.take(i), f) || v[i]@ == f) by {
        if has_name(v.take(i + 1), f) {
            let k = choose|k: int| 0 <= k < v.take(i + 1).len() && #[trigger] v.take(i + 1)[k]@ == f;
            if k < i {
                assert(v.take(i)[k]@ == f);
            }
        }
        if has_name(v.take(i), f) {
            let k = choose|k: int| 0 <= k < v.take(i).len() && #[trigger] v.take(i)[k]@ == f;
            assert(v.take(i + 1)[k]@ == f);
        }
        if v[i]@ == f {
            assert(v.take(i + 1)[i]@ == f);
        }
    }
}

/// Pushing a name adds exactly that name.
pub proof fn lemma_has_name_push(v: Seq<String>, s: String)
    ensures
        forall|f: Seq<char>| has_name(v.push(s), f) <==> (has_name(v, f) || s@ == f),
{
    let w = v.push(s);
    assert forall|f: Seq<char>| has_name(w, f) <==> (has_name(v, f) || s@ == f) by {
        if has_name(w, f) {
            let k = choose|k: int| 0 <= k < w.len() && #[trigger] w[k]@ == f;
            if k < v.len() {
                assert(w[k] == v[k]);
                assert(v[k]@ == f);
            } else {
                assert(w[k] == s);
            }
        }
        if has_name(v, f) {
            let k = choose|k: int| 0 <= k < v.len() && #[trigger] v[k]@ == f;
            assert(w[k] == v[k]);
            assert(w[k]@ == f);
        }
        if s@ == f {
            assert(w[v.len() as int] == s);
            assert(w[v.len() as int]@ == f);
        }
    }
}

/// Whether `name` is in `names`.
pub fn contains_name(names: &Vec<String>, name: &String) -> (b: bool)
    ensures
        b == has_name(names@, name@),
{
    let mut i: usize = 0;
    while i < names.len()
        invariant
            0 <= i <= names.len(),
            forall|k: int| 0 <= k < i ==> names@[k]@ != name@,
        decreases names.len() - i,
    {
        if names[i] == *name {
            return true;
        }
        i = i + 1;
    }
    false
}

fn folder_row_exec(lc: bool, l: bool, rc: bool, r: bool) -> (v: Vec<(FolderOp, SyncDestination)>)
    ensures
        v@ == folder_row(lc, l, rc, r),
{
    let cl = (FolderOp::Cache, SyncDestination::Left);
    let ul = (FolderOp::Uncache, SyncDestination::Left);
    let nl = (FolderOp::Create, SyncDestination::Left);
    let dl = (FolderOp::Delete, SyncDestination::Left);
    let cr = (FolderOp::Cache, SyncDestination::Right);
    let ur = (FolderOp::Uncache, SyncDestination::Right);
    let nr = (FolderOp::Create, SyncDestination::Right);
    let dr = (FolderOp::Delete, SyncDestination::Right);
    let v = match (lc, l, rc, r) {
        (false, false, false, false) => vec![],
        (false, false, false, true) => vec![cl, nl, cr],
        (false, false, true, false) => vec![ur],
        (false, false, true, true) => vec![cl, nl],
        (false, true, false, false) => vec![cl, cr, nr],
        (false, true, false, true) => vec![cl, cr],
        (false, true, true, false) => vec![cl, nr],
        (false, true, true, true) => vec![cl],
        (true, false, false, false) => vec![ul],
        (true, false, false, true) => vec![nl, cr],
        (true, false, true, false) => vec![ul, ur],
        (true, false, true, true) => vec![ul, ur, dr],
        (true, true, false, false) => vec![cr, nr],
        (true, true, false, true) => vec![cr],
        (true, true, true, false) => vec![ul, dl, ur],
        (true, true, true, true) => vec![],
    };
    assert(v@ =~= folder_row(lc, l, rc, r));
    v
}

/// The hunks of one table row for folder `name`, in apply order.
pub fn build_folder_hunks(name: &String, lc: bool, l: bool, rc: bool, r: bool) -> (v: FolderSyncPatch)
    ensures
        hunks_view(v@) == row_hunks(name@, lc, l, rc, r),
{
    let row = folder_row_exec(lc, l, rc, r);
    let mut v: Vec<FolderSyncHunk> = Vec::new();
    let mut k: usize = 0;
    while k < row.len()
        invariant
            0 <= k <= row.len(),
            row@ == folder_row(lc, l, rc, r),
            hunks_view(v@) =~= row_hunks(name@, lc, l, rc, r).take(k as int),
        decreases row.len() - k,
    {
        let (op, side) = row[k];
        let h = FolderSyncHunk::new(op, name.clone(), side);
        let ghost v0 = v@;
        v.push(h);
        assert(hunks_view(v@) =~= hunks_view(v0).push(h@));
        assert(row_hunks(name@, lc, l, rc, r)[k as int] == h@);
        assert(row_hunks(name@, lc, l, rc, r).take(k + 1) =~= row_hunks(
            name@,
            lc,
            l,
            rc,
            r,
        ).take(k as int).push(h@));
        k = k + 1;
    }
    assert(row_hunks(name@, lc, l, rc, r).take(k as int) =~= row_hunks(name@, lc, l, rc, r));
    v
}

fn patches_has_key(p: &FolderSyncPatches, name: &String) -> (b: bool)
    ensures
        b == has_key(p@, name@),
{
    let mut i: usize = 0;
    while i < p.len()
        invariant
            0 <= i <= p.len(),
            forall|k: int| 0 <= k < i ==> p@[k].0@ != name@,
        decreases p.len() - i,
    {
        if p[i].0 == *name {
            return true;
        }
        i = i + 1;
    }
    false
}

/// Adds to `p` the entry of every folder of `names` that has none yet.
fn add_folders(
    p: &mut FolderSyncPatches,
    names: &Vec<String>,
    lc: &Vec<String>,
    l: &Vec<String>,
    rc: &Vec<String>,
    r: &Vec<String>,
)
    requires
        keys_unique(old(p)@),
        forall|i: int|
            0 <= i < old(p)@.len() ==> hunks_view(#[trigger] old(p)@[i].1@) == folder_patch_of(
                old(p)@[i].0@,
                lc@,
                l@,
                rc@,
                r@,
            ),
    ensures
        keys_unique(final(p)@),
        forall|i: int|
            0 <= i < final(p)@.len() ==> hunks_view(#[trigger] final(p)@[i].1@) == folder_patch_of(
                final(p)@[i].0@,
                lc@,
                l@,
                rc@,
                r@,
            ),
        forall|f: Seq<char>|
            #![trigger has_key(final(p)@, f)]
            has_key(final(p)@, f) <==> (has_key(old(p)@, f) || has_name(names@, f)),
{
    let ghost p0 = p@;
    let mut i: usize = 0;
    while i < names.len()
        invariant
            0 <= i <= names.len(),
            keys_unique(p@),
            forall|k: int|
                0 <= k < p@.len() ==> hunks_view(#[trigger] p@[k].1@) == folder_patch_of(
                    p@[k].0@,
                    lc@,
                    l@,
                    rc@,
                    r@,
                ),
            forall|f: Seq<char>|
                #![trigger has_key(p@, f)]
                has_key(p@, f) <==> (has_key(p0, f) || has_name(names@.take(i as int), f)),
        decreases names.len() - i,
    {
        let name = &names[i];
        let ghost before = p@;
        if !patches_has_key(p, name) {
            let hunks = build_folder_hunks(
                name,
                contains_name(lc, name),
                contains_name(l, name),
                contains_name(rc, name),
                contains_name(r, name),
            );
            p.push((name.clone(), hunks));
            assert(p@[p@.len() - 1].0@ == name@);
            assert forall|f: Seq<char>| has_key(p@, f) <==> (has_key(before, f) || f == name@) by {
                if has_key(p@, f) {
                    let k = choose|k: int| 0 <= k < p@.len() && #[trigger] p@[k].0@ == f;
                    if k < before.len() {
                        assert(before[k].0@ == f);
                    }
                }
                if has_key(before, f) {
                    let k = choose|k: int| 0 <= k < before.len() && #[trigger] before[k].0@ == f;
                    assert(p@[k].0@ == f);
                }
            }
        }
        proof {
            lemma_has_name_step(names@, i as int);
        }
        assert forall|f: Seq<char>|
            #![trigger has_key(p@, f)]
            has_key(p@, f) <==> (has_key(p0, f) || has_name(names@.take(i + 1), f)) by {
            assert(has_key(before, f) <==> (has_key(p0, f) || has_name(names@.take(i as int), f)));
        }
        i = i + 1;
    }
    assert(names@.take(i as int) =~= names@);
}

/// Builds the folder patches of the four folder name lists (left cache,
/// left, right cache, right): one entry for every folder named in any of
/// them, holding the hunks of that folder's row of the four-corner table.
pub fn build_patch(
    local_cache: FoldersName,
    local: FoldersName,
    remote_cache: FoldersName,
    remote: FoldersName,
) -> (p: FolderSyncPatches)
    ensures
        is_folder_patches(p@, local_cache@, local@, remote_cache@, remote@),
{
    let mut p: FolderSyncPatches = Vec::new();
    add_folders(&mut p, &local_cache, &local_cache, &local, &remote_cache, &remote);
    add_folders(&mut p, &local, &local_cache, &local, &remote_cache, &remote);
    add_folders(&mut p, &remote_cache, &local_cache, &local, &remote_cache, &remote);
    add_folders(&mut p, &remote, &local_cache, &local, &remote_cache, &remote);
    p
}

} // verus!
